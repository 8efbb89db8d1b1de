//! The challenge registry: issues one-time liveness challenges and
//! consumes them atomically, so that each challenge identifier can be
//! used at most once.

use vstd::prelude::*;
use vstd::string::StringExecFns;
use crate::encoding::{dec_of, hex_of, push_decimal};
use crate::hashing::hex_encode;

verus! {

/// The kind of prompt a challenge asks the caller to perform.
#[derive(Clone, Copy, Debug, PartialEq, Eq, Hash, Structural)]
pub enum PromptType {
    Blink,
    Nod,
    SayPhrase,
}

/// A one-time liveness challenge: a unique identifier, a prompt, and an
/// anti-replay nonce.
#[derive(Debug)]
pub struct VerificationChallenge {
    pub id: String,
    pub prompt_type: PromptType,
    pub prompt_text: String,
    pub nonce: String,
}

/// The mathematical content of a challenge.
pub ghost struct ChallengeView {
    pub id: Seq<char>,
    pub prompt_type: PromptType,
    pub prompt_text: Seq<char>,
    pub nonce: Seq<char>,
}

impl VerificationChallenge {
    /// A copy equal to `self`.
    pub fn duplicate(&self) -> (r: VerificationChallenge)
        ensures
            r == *self,
    {
        VerificationChallenge {
            id: self.id.clone(),
            prompt_type: self.prompt_type,
            prompt_text: self.prompt_text.clone(),
            nonce: self.nonce.clone(),
        }
    }
}

impl View for VerificationChallenge {
    type V = ChallengeView;

    open spec fn view(&self) -> ChallengeView {
        ChallengeView {
            id: self.id@,
            prompt_type: self.prompt_type,
            prompt_text: self.prompt_text@,
            nonce: self.nonce@,
        }
    }
}

/// The identifier a challenge issued at `now` to `identity` carries: the
/// time and the identity joined with the hex rendering of the
/// unpredictable bytes the caller supplies, so that fresh entropy makes
/// the identifier fresh, non-colliding and not predictable from public
/// state alone.
pub open spec fn challenge_id_of(now: u64, identity: Seq<char>, entropy: Seq<u8>) -> Seq<char> {
    dec_of(now as nat) + "-"@ + identity + "-"@ + hex_of(entropy)
}

/// The prompt kind rotates with the issuing time.
pub open spec fn prompt_kind_of(now: u64) -> PromptType {
    if now % 3 == 0 {
        PromptType::Blink
    } else if now % 3 == 1 {
        PromptType::Nod
    } else {
        PromptType::SayPhrase
    }
}

/// The prompt text that belongs to each prompt kind.
pub open spec fn prompt_text_of(now: u64) -> Seq<char> {
    if now % 3 == 0 {
        "Blink twice slowly."@
    } else if now % 3 == 1 {
        "Nod your head up and down."@
    } else {
        "Clearly say: 'My identity is sovereign'"@
    }
}

/// Builds the identifier a challenge issued at `now` to `identity` with
/// `entropy` carries, for issuance and for freshness checks before it.
pub fn make_challenge_id(identity: &String, now: u64, entropy: &Vec<u8>) -> (r: String)
    ensures
        r@ == challenge_id_of(now, identity@, entropy@),
{
    let mut id = String::new();
    push_decimal(&mut id, now);
    id.append("-");
    id.append(identity.as_str());
    id.append("-");
    let rendered = hex_encode(entropy.as_slice());
    id.append(rendered.as_str());
    proof {
        assert(id@ =~= challenge_id_of(now, identity@, entropy@));
    }
    id
}

/// Whether some challenge in `s` carries the identifier `id`.
pub open spec fn has_challenge(s: Seq<ChallengeView>, id: Seq<char>) -> bool {
    exists|i: int| 0 <= i < s.len() && (#[trigger] s[i].id) == id
}

/// No two challenges in `s` carry the same identifier.
pub open spec fn distinct_ids(s: Seq<ChallengeView>) -> bool {
    forall|i: int, j: int|
        0 <= i < j < s.len() ==> (#[trigger] s[i].id) != (#[trigger] s[j].id)
}

proof fn lemma_distinct_after_remove(s: Seq<ChallengeView>, i: int)
    requires
        distinct_ids(s),
        0 <= i < s.len(),
    ensures
        distinct_ids(s.remove(i)),
{
    let t = s.remove(i);
    assert forall|p: int, q: int| 0 <= p < q < t.len() implies (#[trigger] t[p].id) != (
    #[trigger] t[q].id) by {
        let p0: int = if p < i {
            p
        } else {
            p + 1
        };
        let q0: int = if q < i {
            q
        } else {
            q + 1
        };
        assert(t[p] == s[p0]);
        assert(t[q] == s[q0]);
    }
}

/// Once a challenge is removed from a well-formed registry, its identifier
/// is no longer present: a second consume of the same identifier returns
/// NotFound.
pub proof fn lemma_consume_single_use(s: Seq<ChallengeView>, i: int)
    requires
        distinct_ids(s),
        0 <= i < s.len(),
    ensures
        !has_challenge(s.remove(i), s[i].id),
{
    let t = s.remove(i);
    assert forall|j: int| 0 <= j < t.len() implies (#[trigger] t[j].id) != s[i].id by {
        let j0: int = if j < i {
            j
        } else {
            j + 1
        };
        assert(t[j] == s[j0]);
    }
}

/// The store of outstanding challenges, keyed by challenge identifier.
pub struct ChallengeRegistry {
    items: Vec<VerificationChallenge>,
}

impl View for ChallengeRegistry {
    type V = Seq<ChallengeView>;

    closed spec fn view(&self) -> Seq<ChallengeView> {
        self.items@.map_values(|c: VerificationChallenge| c@)
    }
}

impl ChallengeRegistry {
    /// Identifiers in the registry are pairwise distinct.
    pub open spec fn wf(&self) -> bool {
        distinct_ids(self@)
    }

    /// An empty registry.
    pub fn new() -> (r: ChallengeRegistry)
        ensures
            r@ =~= Seq::<ChallengeView>::empty(),
            r.wf(),
    {
        ChallengeRegistry { items: Vec::new() }
    }

    /// How many challenges are outstanding.
    pub fn len(&self) -> (n: usize)
        ensures
            n == self@.len(),
    {
        self.items.len()
    }

    /// Removes and returns the challenge carrying `challenge_id`, if any:
    /// a single atomic lookup-and-remove with no suspension inside it.
    fn remove_by_id(&mut self, challenge_id: &String) -> (r: Option<VerificationChallenge>)
        requires
            old(self).wf(),
        ensures
            final(self).wf(),
            !has_challenge(old(self)@, challenge_id@) ==> r is None && final(self)@ == old(
                self,
            )@,
            has_challenge(old(self)@, challenge_id@) ==> (r matches Some(c) && exists|i: int|
                0 <= i < old(self)@.len() && (#[trigger] old(self)@[i].id) == challenge_id@
                    && c@ == old(self)@[i] && final(self)@ == old(self)@.remove(i)),
            !has_challenge(final(self)@, challenge_id@),
    {
        let n = self.items.len();
        let mut k: usize = 0;
        while k < n
            invariant
                n == self.items.len(),
                k <= n,
                self.items@ == old(self).items@,
                forall|j: int| 0 <= j < k ==> (#[trigger] self@[j].id) != challenge_id@,
                old(self).wf(),
            decreases n - k,
        {
            if self.items[k].id == *challenge_id {
                let ghost i = k as int;
                let c = self.items.remove(k);
                proof {
                    assert(c@ == old(self)@[i]);
                    assert(self@ =~= old(self)@.remove(i));
                    lemma_distinct_after_remove(old(self)@, i);
                    lemma_consume_single_use(old(self)@, i);
                }
                return Some(c);
            }
            k += 1;
        }
        proof {
            assert(!has_challenge(self@, challenge_id@));
        }
        None
    }

    /// Whether a challenge carrying `challenge_id` is outstanding: a pure
    /// lookup, for callers that must establish freshness before `issue`.
    pub fn contains_challenge(&self, challenge_id: &String) -> (r: bool)
        ensures
            r == has_challenge(self@, challenge_id@),
    {
        let n = self.items.len();
        let mut k: usize = 0;
        while k < n
            invariant
                n == self.items.len(),
                k <= n,
                forall|j: int| 0 <= j < k ==> (#[trigger] self@[j].id) != challenge_id@,
            decreases n - k,
        {
            if self.items[k].id == *challenge_id {
                proof {
                    assert(self@[k as int].id == challenge_id@);
                }
                return true;
            }
            k += 1;
        }
        false
    }

    /// Issues a fresh challenge to `identity`: the identifier is derived
    /// from the issuing time, the identity and the unpredictable bytes the
    /// caller supplies, the nonce is the hex rendering of those bytes, and
    /// the prompt rotates with the time. Fresh entropy keeps the derived
    /// identifier off the outstanding ones, which the precondition
    /// records; the registry then gains exactly this challenge, and every
    /// previously issued challenge remains outstanding.
    pub fn issue(&mut self, identity: &String, now: u64, entropy: &Vec<u8>) -> (c:
        VerificationChallenge)
        requires
            old(self).wf(),
            !has_challenge(old(self)@, challenge_id_of(now, identity@, entropy@)),
        ensures
            final(self).wf(),
            c@.id == challenge_id_of(now, identity@, entropy@),
            c@.prompt_type == prompt_kind_of(now),
            c@.prompt_text == prompt_text_of(now),
            c@.nonce == hex_of(entropy@),
            !has_challenge(old(self)@, c@.id),
            has_challenge(final(self)@, c@.id),
            final(self)@ == old(self)@.push(c@),
    {
        let id = make_challenge_id(identity, now, entropy);
        let nonce = hex_encode(entropy.as_slice());
        let r = now % 3;
        let prompt_type: PromptType;
        let prompt_text: String;
        if r == 0 {
            prompt_type = PromptType::Blink;
            prompt_text = String::from_str("Blink twice slowly.");
        } else if r == 1 {
            prompt_type = PromptType::Nod;
            prompt_text = String::from_str("Nod your head up and down.");
        } else {
            prompt_type = PromptType::SayPhrase;
            prompt_text = String::from_str("Clearly say: 'My identity is sovereign'");
        }
        let c = VerificationChallenge { id, prompt_type, prompt_text, nonce };
        let ghost mid = self@;
        self.items.push(c.duplicate());
        proof {
            assert(self@ =~= mid.push(c@));
            assert(self@[self@.len() - 1].id == c@.id);
            assert forall|p: int, q: int| 0 <= p < q < self@.len() implies (
            #[trigger] self@[p].id) != (#[trigger] self@[q].id) by {
                if q < self@.len() - 1 {
                    assert(self@[p] == mid[p]);
                    assert(self@[q] == mid[q]);
                } else {
                    if p < self@.len() - 1 {
                        assert(self@[p] == mid[p]);
                        assert(!has_challenge(mid, c@.id));
                    }
                }
            }
        }
        c
    }

    /// Atomically removes and returns the challenge carrying
    /// `challenge_id`; NotFound (`None`) if no such challenge is
    /// outstanding. Afterwards the identifier is outstanding no more, so a
    /// second consume of it returns NotFound.
    pub fn consume(&mut self, challenge_id: &String) -> (r: Option<VerificationChallenge>)
        requires
            old(self).wf(),
        ensures
            final(self).wf(),
            !has_challenge(old(self)@, challenge_id@) ==> r is None && final(self)@ == old(
                self,
            )@,
            has_challenge(old(self)@, challenge_id@) ==> (r matches Some(c) && exists|i: int|
                0 <= i < old(self)@.len() && (#[trigger] old(self)@[i].id) == challenge_id@
                    && c@ == old(self)@[i] && final(self)@ == old(self)@.remove(i)),
            !has_challenge(final(self)@, challenge_id@),
    {
        self.remove_by_id(challenge_id)
    }
}

} // verus!
