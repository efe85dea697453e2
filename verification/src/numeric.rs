//! Decimal rendering and parsing of 64-bit account identifiers.
//!
//! The provider transmits account identifiers as decimal strings; sessions
//! store them as integers. Both directions are specified exactly, and the
//! round trip (render then parse) is proved loss-free.

use vstd::arithmetic::div_mod::lemma_fundamental_div_mod;
use vstd::prelude::*;

verus! {

/// The character standing for one decimal digit value.
pub open spec fn digit_char(d: int) -> char {
    if d == 0 {
        '0'
    } else if d == 1 {
        '1'
    } else if d == 2 {
        '2'
    } else if d == 3 {
        '3'
    } else if d == 4 {
        '4'
    } else if d == 5 {
        '5'
    } else if d == 6 {
        '6'
    } else if d == 7 {
        '7'
    } else if d == 8 {
        '8'
    } else {
        '9'
    }
}

/// Whether a character is a decimal digit.
pub open spec fn is_digit(c: char) -> bool {
    48 <= c as int && c as int <= 57
}

/// The numeric value of a digit character (zero for any non-digit).
pub open spec fn char_digit(c: char) -> nat {
    if is_digit(c) {
        (c as int - 48) as nat
    } else {
        0
    }
}

/// Whether every character of `s` is a decimal digit.
pub open spec fn all_digits(s: Seq<char>) -> bool {
    forall|i: int| 0 <= i < s.len() ==> is_digit(s[i])
}

/// The canonical decimal rendering of `n`: no sign, no leading zeros.
pub open spec fn dec_digits(n: nat) -> Seq<char>
    decreases n,
{
    if n < 10 {
        seq![digit_char(n as int)]
    } else {
        dec_digits(n / 10).push(digit_char((n % 10) as int))
    }
}

/// The value of a digit string read most-significant first.
pub open spec fn dec_value(s: Seq<char>) -> nat
    decreases s.len(),
{
    if s.len() == 0 {
        0
    } else {
        dec_value(s.drop_last()) * 10 + char_digit(s.last())
    }
}

/// What parsing a string as a `u64` yields: an optional leading `+`, then at
/// least one digit, and a value that fits in 64 bits; anything else fails.
pub open spec fn u64_string_value(s: Seq<char>) -> Option<u64> {
    let t = if s.len() > 0 && s[0] == '+' {
        s.subrange(1, s.len() as int)
    } else {
        s
    };
    if t.len() > 0 && all_digits(t) && dec_value(t) <= u64::MAX {
        Some(dec_value(t) as u64)
    } else {
        None
    }
}

fn digit_str(d: u64) -> (r: &'static str)
    requires
        d < 10,
    ensures
        r@ =~= seq![digit_char(d as int)],
{
    proof {
        reveal_strlit("0");
        reveal_strlit("1");
        reveal_strlit("2");
        reveal_strlit("3");
        reveal_strlit("4");
        reveal_strlit("5");
        reveal_strlit("6");
        reveal_strlit("7");
        reveal_strlit("8");
        reveal_strlit("9");
    }
    if d == 0 {
        "0"
    } else if d == 1 {
        "1"
    } else if d == 2 {
        "2"
    } else if d == 3 {
        "3"
    } else if d == 4 {
        "4"
    } else if d == 5 {
        "5"
    } else if d == 6 {
        "6"
    } else if d == 7 {
        "7"
    } else if d == 8 {
        "8"
    } else {
        "9"
    }
}

/// Renders `n` as its canonical decimal string.
pub fn u64_to_string(n: u64) -> (r: String)
    ensures
        r@ == dec_digits(n as nat),
    decreases n,
{
    let d = n % 10;
    let ds = digit_str(d);
    if n < 10 {
        let r = ds.to_owned();
        proof {
            assert(r@ =~= dec_digits(n as nat));
        }
        r
    } else {
        let mut r = u64_to_string(n / 10);
        r.append(ds);
        proof {
            assert(r@ =~= dec_digits(n as nat));
        }
        r
    }
}

/// Parses a decimal string as a `u64`, exactly as `u64_string_value` says.
pub fn parse_u64(s: &str) -> (r: Option<u64>)
    ensures
        r == u64_string_value(s@),
{
    let len = s.unicode_len();
    let mut i: usize = 0;
    if len > 0 && s.get_char(0) == '+' {
        i = 1;
    }
    let ghost t: Seq<char> = s@.subrange(i as int, len as int);
    proof {
        if i == 0 {
            assert(t =~= s@);
        }
    }
    if i == len {
        return None;
    }
    let ghost start = i as int;
    let mut acc: u64 = 0;
    while i < len
        invariant
            start <= i as int <= len,
            len == s@.len(),
            t == s@.subrange(start, len as int),
            start == if s@.len() > 0 && s@[0] == '+' { 1int } else { 0int },
            all_digits(s@.subrange(start, i as int)),
            acc as nat == dec_value(s@.subrange(start, i as int)),
        decreases len - i,
    {
        let c = s.get_char(i);
        let cu = c as u32;
        if cu < 48 || cu > 57 {
            proof {
                assert(c as int == cu as int);
                assert(!is_digit(c));
                assert(t[i as int - start] == c);
                assert(!all_digits(t));
            }
            return None;
        }
        let d = ((cu - 48) as u64);
        let ghost prefix = s@.subrange(start, i as int);
        let ghost prefix1 = s@.subrange(start, i as int + 1);
        proof {
            assert(prefix1.drop_last() =~= prefix);
            assert(dec_value(prefix1) == acc as nat * 10 + d as nat);
        }
        let next = match acc.checked_mul(10) {
            Some(x) => x.checked_add(d),
            None => None,
        };
        match next {
            Some(x) => {
                acc = x;
            },
            None => {
                proof {
                    assert(dec_value(prefix1) > u64::MAX);
                    lemma_dec_value_monotone(s@, start, i as int + 1, len as int);
                    assert(dec_value(t) > u64::MAX);
                    if start == 0 {
                        assert(t =~= s@);
                    }
                }
                return None;
            },
        }
        i = i + 1;
    }
    proof {
        assert(s@.subrange(start, len as int) =~= t);
    }
    Some(acc)
}

/// A longer all-digit prefix never has a smaller value.
proof fn lemma_dec_value_monotone(s: Seq<char>, start: int, i: int, j: int)
    requires
        0 <= start <= i <= j <= s.len(),
    ensures
        dec_value(s.subrange(start, j)) >= dec_value(s.subrange(start, i)),
    decreases j - i,
{
    if i < j {
        lemma_dec_value_monotone(s, start, i, j - 1);
        let p = s.subrange(start, j);
        assert(p.drop_last() =~= s.subrange(start, j - 1));
        assert(dec_value(p) == dec_value(s.subrange(start, j - 1)) * 10 + char_digit(p.last()));
    }
}

/// The canonical rendering of `n` is all digits and reads back as `n`.
pub proof fn lemma_dec_digits_value(n: nat)
    ensures
        dec_value(dec_digits(n)) == n,
        all_digits(dec_digits(n)),
        dec_digits(n).len() >= 1,
    decreases n,
{
    if n < 10 {
        let s = dec_digits(n);
        assert(s.drop_last() =~= Seq::<char>::empty());
        assert(dec_value(s.drop_last()) == 0);
        assert(s.last() == digit_char(n as int));
        assert(char_digit(digit_char(n as int)) == n);
        assert(dec_value(s) == n);
        assert(all_digits(s)) by {
            assert(forall|i: int| 0 <= i < s.len() ==> s[i] == digit_char(n as int));
            assert(is_digit(digit_char(n as int)));
        }
    } else {
        lemma_dec_digits_value(n / 10);
        let s = dec_digits(n);
        let p = dec_digits(n / 10);
        assert(s == p.push(digit_char((n % 10) as int)));
        assert(s.drop_last() =~= p);
        assert(dec_value(s.drop_last()) == dec_value(p));
        assert(s.last() == digit_char((n % 10) as int));
        assert(char_digit(digit_char((n % 10) as int)) == n % 10);
        assert(dec_value(s) == dec_value(p) * 10 + n % 10);
        lemma_fundamental_div_mod(n as int, 10);
        assert(dec_value(s) == n);
        assert(all_digits(s)) by {
            assert(forall|i: int| 0 <= i < p.len() ==> s[i] == p[i]);
            assert(is_digit(digit_char((n % 10) as int)));
        }
    }
}

/// Rendering a 64-bit value and parsing it back yields the same value.
pub proof fn lemma_u64_decimal_round_trip(n: u64)
    ensures
        u64_string_value(dec_digits(n as nat)) == Some(n),
{
    lemma_dec_digits_value(n as nat);
    let s = dec_digits(n as nat);
    assert(is_digit(s[0]));
    assert(s[0] != '+');
}

} // verus!
