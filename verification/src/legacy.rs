//! Endpoints kept for backward compatibility and not part of the
//! verification domain: a greeting and a plain counter.

use vstd::prelude::*;
use vstd::string::StringExecFns;

verus! {

/// Builds the greeting for `name`.
pub fn greet(name: &String) -> (r: String)
    ensures
        r@ == "Hello, "@ + name@ + "!"@,
{
    let mut s = String::from_str("Hello, ");
    s.append(name.as_str());
    s.append("!");
    proof {
        assert(s@ =~= "Hello, "@ + name@ + "!"@);
    }
    s
}

/// The text of an assistant chat reply: its content, or empty when the
/// reply carries none.
pub fn reply_text(content: Option<String>) -> (r: String)
    ensures
        content matches Some(s) ==> r == s,
        content is None ==> r@ == Seq::<char>::empty(),
{
    match content {
        Some(s) => s,
        None => String::new(),
    }
}

/// The counter carried over from the service template.
pub struct Counter {
    value: u64,
}

impl Counter {
    /// What the counter currently holds.
    pub closed spec fn spec_value(&self) -> u64 {
        self.value
    }

    /// A counter at zero.
    pub fn new() -> (r: Counter)
        ensures
            r.spec_value() == 0,
    {
        Counter { value: 0 }
    }

    /// Increments the counter and returns the new value.
    pub fn increment(&mut self) -> (n: u64)
        requires
            old(self).spec_value() < u64::MAX,
        ensures
            final(self).spec_value() == old(self).spec_value() + 1,
            n == final(self).spec_value(),
    {
        self.value = self.value + 1;
        self.value
    }

    /// Returns the current value without changing it.
    pub fn get_count(&self) -> (n: u64)
        ensures
            n == self.spec_value(),
    {
        self.value
    }

    /// Overwrites the counter and returns the value set.
    pub fn set_count(&mut self, value: u64) -> (n: u64)
        ensures
            final(self).spec_value() == value,
            n == value,
    {
        self.value = value;
        self.value
    }
}

} // verus!
