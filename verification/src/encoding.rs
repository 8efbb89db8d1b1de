//! Decimal and hexadecimal text renderings of machine integers and bytes,
//! with the spec-level sequences they produce.

use vstd::prelude::*;
use vstd::string::StringExecFns;

verus! {

/// The character for one decimal digit.
pub open spec fn digit_char(d: nat) -> char {
    if d == 0 {
        '0'
    } else if d == 1 {
        '1'
    } else if d == 2 {
        '2'
    } else if d == 3 {
        '3'
    } else if d == 4 {
        '4'
    } else if d == 5 {
        '5'
    } else if d == 6 {
        '6'
    } else if d == 7 {
        '7'
    } else if d == 8 {
        '8'
    } else {
        '9'
    }
}

/// The decimal rendering of `n`: most significant digit first, no leading
/// zeros (`0` renders as "0").
pub open spec fn dec_of(n: nat) -> Seq<char>
    decreases n,
{
    if n < 10 {
        seq![digit_char(n)]
    } else {
        dec_of(n / 10).push(digit_char(n % 10))
    }
}

/// The character for one hexadecimal digit, lowercase.
pub open spec fn hex_digit(d: u8) -> char {
    if d == 0 {
        '0'
    } else if d == 1 {
        '1'
    } else if d == 2 {
        '2'
    } else if d == 3 {
        '3'
    } else if d == 4 {
        '4'
    } else if d == 5 {
        '5'
    } else if d == 6 {
        '6'
    } else if d == 7 {
        '7'
    } else if d == 8 {
        '8'
    } else if d == 9 {
        '9'
    } else if d == 10 {
        'a'
    } else if d == 11 {
        'b'
    } else if d == 12 {
        'c'
    } else if d == 13 {
        'd'
    } else if d == 14 {
        'e'
    } else {
        'f'
    }
}

/// The lowercase hexadecimal rendering of a byte string: two digits per
/// byte, high nibble first, bytes in order.
pub open spec fn hex_of(bytes: Seq<u8>) -> Seq<char>
    decreases bytes.len(),
{
    if bytes.len() == 0 {
        Seq::<char>::empty()
    } else {
        hex_of(bytes.drop_last()) + seq![
            hex_digit(bytes.last() / 16),
            hex_digit(bytes.last() % 16),
        ]
    }
}

/// Distinct digits render as distinct characters.
pub proof fn lemma_digit_char_injective(a: nat, b: nat)
    requires
        a < 10,
        b < 10,
        digit_char(a) == digit_char(b),
    ensures
        a == b,
{
}

pub proof fn lemma_dec_of_len(n: nat)
    ensures
        dec_of(n).len() >= 1,
        n < 10 ==> dec_of(n).len() == 1,
        n >= 10 ==> dec_of(n).len() >= 2,
    decreases n,
{
    if n >= 10 {
        lemma_dec_of_len(n / 10);
    }
}

pub proof fn lemma_dec_of_shape(n: nat)
    ensures
        dec_of(n).last() == digit_char(n % 10),
        n < 10 ==> dec_of(n).drop_last() =~= Seq::<char>::empty(),
        n >= 10 ==> dec_of(n).drop_last() =~= dec_of(n / 10),
{
    if n < 10 {
        assert(n % 10 == n);
    }
}

/// Distinct numbers have distinct decimal renderings.
pub proof fn lemma_dec_of_injective(a: nat, b: nat)
    requires
        dec_of(a) == dec_of(b),
    ensures
        a == b,
    decreases a,
{
    lemma_dec_of_len(a);
    lemma_dec_of_len(b);
    lemma_dec_of_shape(a);
    lemma_dec_of_shape(b);
    if a < 10 && b < 10 {
        assert(dec_of(a).last() == digit_char(a));
        assert(dec_of(b).last() == digit_char(b));
        lemma_digit_char_injective(a, b);
    } else if a < 10 || b < 10 {
        // one rendering has one character, the other at least two
        assert(false);
    } else {
        lemma_digit_char_injective(a % 10, b % 10);
        assert(dec_of(a / 10) == dec_of(b / 10));
        lemma_dec_of_injective(a / 10, b / 10);
        assert(a == 10 * (a / 10) + a % 10) by (nonlinear_arith);
        assert(b == 10 * (b / 10) + b % 10) by (nonlinear_arith);
    }
}

/// Appends one decimal digit character to `s`.
fn push_digit(s: &mut String, d: u64)
    requires
        d < 10,
    ensures
        final(s)@ == old(s)@ + seq![digit_char(d as nat)],
{
    match d {
        0 => {
            s.append("0");
            proof {
                reveal_strlit("0");
                assert(s@ =~= old(s)@ + seq![digit_char(d as nat)]);
            }
        },
        1 => {
            s.append("1");
            proof {
                reveal_strlit("1");
                assert(s@ =~= old(s)@ + seq![digit_char(d as nat)]);
            }
        },
        2 => {
            s.append("2");
            proof {
                reveal_strlit("2");
                assert(s@ =~= old(s)@ + seq![digit_char(d as nat)]);
            }
        },
        3 => {
            s.append("3");
            proof {
                reveal_strlit("3");
                assert(s@ =~= old(s)@ + seq![digit_char(d as nat)]);
            }
        },
        4 => {
            s.append("4");
            proof {
                reveal_strlit("4");
                assert(s@ =~= old(s)@ + seq![digit_char(d as nat)]);
            }
        },
        5 => {
            s.append("5");
            proof {
                reveal_strlit("5");
                assert(s@ =~= old(s)@ + seq![digit_char(d as nat)]);
            }
        },
        6 => {
            s.append("6");
            proof {
                reveal_strlit("6");
                assert(s@ =~= old(s)@ + seq![digit_char(d as nat)]);
            }
        },
        7 => {
            s.append("7");
            proof {
                reveal_strlit("7");
                assert(s@ =~= old(s)@ + seq![digit_char(d as nat)]);
            }
        },
        8 => {
            s.append("8");
            proof {
                reveal_strlit("8");
                assert(s@ =~= old(s)@ + seq![digit_char(d as nat)]);
            }
        },
        _ => {
            s.append("9");
            proof {
                reveal_strlit("9");
                assert(s@ =~= old(s)@ + seq![digit_char(d as nat)]);
            }
        },
    }
}

/// Appends the decimal rendering of `n` to `s`.
pub fn push_decimal(s: &mut String, n: u64)
    ensures
        final(s)@ == old(s)@ + dec_of(n as nat),
    decreases n,
{
    if n >= 10 {
        push_decimal(s, n / 10);
    }
    push_digit(s, n % 10);
    proof {
        if n >= 10 {
            assert(s@ =~= old(s)@ + dec_of(n as nat));
        } else {
            assert(n as nat % 10 == n as nat);
            assert(s@ =~= old(s)@ + dec_of(n as nat));
        }
    }
}

/// The decimal rendering of `n` as a fresh string.
pub fn decimal_string(n: u64) -> (r: String)
    ensures
        r@ == dec_of(n as nat),
{
    let mut s = String::new();
    push_decimal(&mut s, n);
    proof {
        assert(s@ =~= dec_of(n as nat));
    }
    s
}

} // verus!
