//! Decimal rendering of the integers the service sends to clients: the
//! counter value (an `i32`, possibly negative) and the elapsed seconds of
//! the timer stream (a `u64`).

use vstd::prelude::*;

verus! {

/// The character for one decimal digit.
pub open spec fn digit_char(d: nat) -> char {
    if d == 0 {
        '0'
    } else if d == 1 {
        '1'
    } else if d == 2 {
        '2'
    } else if d == 3 {
        '3'
    } else if d == 4 {
        '4'
    } else if d == 5 {
        '5'
    } else if d == 6 {
        '6'
    } else if d == 7 {
        '7'
    } else if d == 8 {
        '8'
    } else {
        '9'
    }
}

/// The decimal representation of a natural number: most significant digit
/// first, no leading zeros (except for zero itself, written "0").
pub open spec fn dec_rep(n: nat) -> Seq<char>
    decreases n,
{
    if n < 10 {
        seq![digit_char(n)]
    } else {
        dec_rep(n / 10) + seq![digit_char(n % 10)]
    }
}

/// The decimal representation of a signed integer: a leading '-' for
/// negative values, none otherwise.
pub open spec fn signed_dec_rep(n: int) -> Seq<char> {
    if n < 0 {
        seq!['-'] + dec_rep((-n) as nat)
    } else {
        dec_rep(n as nat)
    }
}

/// The digits of `ds` read back to front, as characters. A loop that
/// collects digits least-significant first produces `ds`; the printed
/// number is this sequence.
pub open spec fn rev_digit_chars(ds: Seq<u8>) -> Seq<char> {
    Seq::new(ds.len(), |i: int| digit_char(ds[ds.len() - 1 - i] as nat))
}

/// Appends the character of one digit to `s`.
fn push_digit(s: &mut String, d: u8)
    requires
        d < 10,
    ensures
        final(s)@ == old(s)@ + seq![digit_char(d as nat)],
{
    if d == 0 {
        s.append("0");
        proof {
            reveal_strlit("0");
            assert(s@ =~= old(s)@ + seq![digit_char(d as nat)]);
        }
    } else if d == 1 {
        s.append("1");
        proof {
            reveal_strlit("1");
            assert(s@ =~= old(s)@ + seq![digit_char(d as nat)]);
        }
    } else if d == 2 {
        s.append("2");
        proof {
            reveal_strlit("2");
            assert(s@ =~= old(s)@ + seq![digit_char(d as nat)]);
        }
    } else if d == 3 {
        s.append("3");
        proof {
            reveal_strlit("3");
            assert(s@ =~= old(s)@ + seq![digit_char(d as nat)]);
        }
    } else if d == 4 {
        s.append("4");
        proof {
            reveal_strlit("4");
            assert(s@ =~= old(s)@ + seq![digit_char(d as nat)]);
        }
    } else if d == 5 {
        s.append("5");
        proof {
            reveal_strlit("5");
            assert(s@ =~= old(s)@ + seq![digit_char(d as nat)]);
        }
    } else if d == 6 {
        s.append("6");
        proof {
            reveal_strlit("6");
            assert(s@ =~= old(s)@ + seq![digit_char(d as nat)]);
        }
    } else if d == 7 {
        s.append("7");
        proof {
            reveal_strlit("7");
            assert(s@ =~= old(s)@ + seq![digit_char(d as nat)]);
        }
    } else if d == 8 {
        s.append("8");
        proof {
            reveal_strlit("8");
            assert(s@ =~= old(s)@ + seq![digit_char(d as nat)]);
        }
    } else {
        s.append("9");
        proof {
            reveal_strlit("9");
            assert(s@ =~= old(s)@ + seq![digit_char(d as nat)]);
        }
    }
}

/// Renders an unsigned integer in decimal.
pub fn u64_to_decimal(n: u64) -> (s: String)
    ensures
        s@ == dec_rep(n as nat),
{
    let mut digits: Vec<u8> = Vec::new();
    let mut x: u64 = n;
    digits.push((x % 10) as u8);
    x = x / 10;
    proof {
        assert(rev_digit_chars(digits@) =~= seq![digit_char((n % 10) as nat)]);
        if x == 0 {
            assert(dec_rep(n as nat) =~= rev_digit_chars(digits@));
        } else {
            assert(dec_rep(n as nat) =~= dec_rep(x as nat) + rev_digit_chars(digits@));
        }
    }
    while x > 0
        invariant
            forall|i: int| 0 <= i < digits@.len() ==> digits@[i] < 10,
            digits@.len() >= 1,
            if x == 0 {
                dec_rep(n as nat) == rev_digit_chars(digits@)
            } else {
                dec_rep(n as nat) == dec_rep(x as nat) + rev_digit_chars(digits@)
            },
        decreases x,
    {
        let d: u8 = (x % 10) as u8;
        x = x / 10;
        let ghost pre = digits@;
        digits.push(d);
        proof {
            assert(rev_digit_chars(digits@) =~= seq![digit_char(d as nat)] + rev_digit_chars(
                pre,
            )) by {
                assert forall|i: int| 0 <= i < digits@.len() implies rev_digit_chars(digits@)[i]
                    == (seq![digit_char(d as nat)] + rev_digit_chars(pre))[i] by {
                    if i > 0 {
                        assert(digits@[digits@.len() - 1 - i] == pre[pre.len() - 1 - (i - 1)]);
                    }
                }
            }
            if x == 0 {
                assert(dec_rep(n as nat) =~= rev_digit_chars(digits@));
            } else {
                assert(dec_rep(n as nat) =~= dec_rep(x as nat) + rev_digit_chars(digits@));
            }
        }
    }
    let mut s = String::new();
    let mut i: usize = digits.len();
    proof {
        assert(s@ =~= rev_digit_chars(digits@).take(digits@.len() - i));
    }
    while i > 0
        invariant
            i <= digits@.len(),
            forall|j: int| 0 <= j < digits@.len() ==> digits@[j] < 10,
            dec_rep(n as nat) == rev_digit_chars(digits@),
            s@ == rev_digit_chars(digits@).take(digits@.len() - i),
        decreases i,
    {
        i = i - 1;
        let d = digits[i];
        push_digit(&mut s, d);
        proof {
            assert(rev_digit_chars(digits@)[digits@.len() - 1 - i as int] == digit_char(
                d as nat,
            ));
            assert(s@ =~= rev_digit_chars(digits@).take(digits@.len() - i));
        }
    }
    proof {
        assert(s@ =~= rev_digit_chars(digits@));
    }
    s
}

/// Renders a signed integer in decimal, with a leading '-' when negative.
pub fn i32_to_decimal(n: i32) -> (s: String)
    ensures
        s@ == signed_dec_rep(n as int),
{
    if n >= 0 {
        u64_to_decimal(n as u64)
    } else {
        let magnitude: u64 = (-(n as i64)) as u64;
        let rest = u64_to_decimal(magnitude);
        let mut s = String::new();
        s.append("-");
        s.append(rest.as_str());
        proof {
            reveal_strlit("-");
            assert(s@ =~= seq!['-'] + dec_rep(magnitude as nat));
        }
        s
    }
}

} // verus!
