//! Base-10 integers and booleans, read as `str::parse` reads them.

use vstd::prelude::*;
use crate::text::{chars_of, token_is};

verus! {

pub open spec fn is_digit(c: char) -> bool {
    '0' <= c && c <= '9'
}

/// A non-empty run of ASCII digits.
pub open spec fn all_digits(s: Seq<char>) -> bool {
    s.len() > 0 && forall|i: int| 0 <= i < s.len() ==> is_digit(#[trigger] s[i])
}

pub open spec fn digit_of(c: char) -> int {
    (c as u32) as int - ('0' as u32) as int
}

/// The number that a run of digits writes in base 10.
pub open spec fn digits_value(s: Seq<char>) -> int
    decreases s.len(),
{
    if s.len() == 0 {
        0
    } else {
        digits_value(s.drop_last()) * 10 + digit_of(s.last())
    }
}

/// An optional `+` followed by digits.
pub open spec fn nat_value(s: Seq<char>) -> Option<int> {
    if s.len() > 0 && s[0] == '+' && all_digits(s.skip(1)) {
        Some(digits_value(s.skip(1)))
    } else if all_digits(s) {
        Some(digits_value(s))
    } else {
        None
    }
}

/// An optional sign followed by digits.
pub open spec fn int_value(s: Seq<char>) -> Option<int> {
    if s.len() > 0 && s[0] == '-' && all_digits(s.skip(1)) {
        Some(-digits_value(s.skip(1)))
    } else {
        nat_value(s)
    }
}

/// What `s.parse::<i32>()` gives, as an option.
pub open spec fn i32_of(s: Seq<char>) -> Option<i32> {
    match int_value(s) {
        Some(v) => if i32::MIN <= v <= i32::MAX {
            Some(v as i32)
        } else {
            None
        },
        None => None,
    }
}

/// What `s.parse::<u64>()` gives, as an option.
pub open spec fn u64_of(s: Seq<char>) -> Option<u64> {
    match nat_value(s) {
        Some(v) => if v <= u64::MAX {
            Some(v as u64)
        } else {
            None
        },
        None => None,
    }
}

/// What `s.parse::<bool>()` gives, as an option.
pub open spec fn bool_of(s: Seq<char>) -> Option<bool> {
    if s == "true"@ {
        Some(true)
    } else if s == "false"@ {
        Some(false)
    } else {
        None
    }
}

proof fn lemma_digits_value_nonneg(s: Seq<char>)
    requires
        forall|i: int| 0 <= i < s.len() ==> is_digit(#[trigger] s[i]),
    ensures
        digits_value(s) >= 0,
    decreases s.len(),
{
    if s.len() > 0 {
        lemma_digits_value_nonneg(s.drop_last());
    }
}

/// Appending digits never makes the value smaller.
proof fn lemma_digits_value_grows(s: Seq<char>, k: int)
    requires
        0 <= k <= s.len(),
        forall|i: int| 0 <= i < s.len() ==> is_digit(#[trigger] s[i]),
    ensures
        digits_value(s.take(k)) <= digits_value(s),
    decreases s.len(),
{
    if k < s.len() {
        let p = s.drop_last();
        assert(p.take(k) =~= s.take(k));
        lemma_digits_value_grows(p, k);
        lemma_digits_value_nonneg(p);
    } else {
        assert(s.take(k) =~= s);
    }
}

/// The value of the digits of `cs` from `from` on, where they are all
/// digits and the value is at most `bound`.
fn digits_from(cs: &Vec<char>, from: usize, bound: u128) -> (r: Option<u128>)
    requires
        from <= cs.len(),
        bound <= u64::MAX,
    ensures
        match r {
            Some(v) => all_digits(cs@.skip(from as int)) && v <= bound && v == digits_value(
                cs@.skip(from as int),
            ),
            None => !(all_digits(cs@.skip(from as int)) && digits_value(cs@.skip(from as int))
                <= bound),
        },
{
    let ghost s = cs@.skip(from as int);
    if from == cs.len() {
        return None;
    }
    let mut val: u128 = 0;
    let mut i: usize = from;
    while i < cs.len()
        invariant
            from <= i <= cs.len(),
            s == cs@.skip(from as int),
            bound <= u64::MAX,
            forall|j: int| 0 <= j < i - from ==> is_digit(#[trigger] s[j]),
            val == digits_value(s.take(i - from)),
            val <= bound,
        decreases cs.len() - i,
    {
        let c = cs[i];
        if !('0' <= c && c <= '9') {
            assert(!is_digit(s[i - from]));
            return None;
        }
        let d = (c as u32 - '0' as u32) as u128;
        proof {
            assert(s.take(i - from + 1).drop_last() =~= s.take(i - from));
            assert(s.take(i - from + 1).last() == c);
        }
        val = val * 10 + d;
        if val > bound {
            proof {
                assert forall|j: int| 0 <= j < i - from + 1 implies is_digit(
                    #[trigger] s.take(i - from + 1)[j],
                ) by {}
                if all_digits(s) {
                    lemma_digits_value_grows(s, i - from + 1);
                }
            }
            return None;
        }
        i = i + 1;
    }
    assert(s.take(i - from) =~= s);
    Some(val)
}

/// Reads a base-10 `i32`: an optional sign and digits.
pub fn parse_i32(s: &str) -> (r: Option<i32>)
    ensures
        r == i32_of(s@),
{
    let cs = chars_of(s);
    if cs.len() > 0 && cs[0] == '-' {
        match digits_from(&cs, 1, 0x8000_0000) {
            Some(v) => Some((0 - (v as i64)) as i32),
            None => {
                assert(!(cs@[0] == '+'));
                assert(!all_digits(cs@)) by {
                    assert(!is_digit(cs@[0]));
                }
                None
            },
        }
    } else if cs.len() > 0 && cs[0] == '+' {
        match digits_from(&cs, 1, 0x7fff_ffff) {
            Some(v) => Some(v as i32),
            None => {
                assert(!all_digits(cs@)) by {
                    assert(!is_digit(cs@[0]));
                }
                None
            },
        }
    } else {
        match digits_from(&cs, 0, 0x7fff_ffff) {
            Some(v) => {
                assert(cs@.skip(0) =~= cs@);
                Some(v as i32)
            },
            None => {
                assert(cs@.skip(0) =~= cs@);
                None
            },
        }
    }
}

/// Reads a base-10 `u64`: an optional `+` and digits.
pub fn parse_u64(s: &str) -> (r: Option<u64>)
    ensures
        r == u64_of(s@),
{
    let cs = chars_of(s);
    if cs.len() > 0 && cs[0] == '+' {
        match digits_from(&cs, 1, 0xffff_ffff_ffff_ffff) {
            Some(v) => Some(v as u64),
            None => {
                assert(!all_digits(cs@)) by {
                    assert(!is_digit(cs@[0]));
                }
                None
            },
        }
    } else {
        match digits_from(&cs, 0, 0xffff_ffff_ffff_ffff) {
            Some(v) => {
                assert(cs@.skip(0) =~= cs@);
                Some(v as u64)
            },
            None => {
                assert(cs@.skip(0) =~= cs@);
                None
            },
        }
    }
}

/// Reads `true` or `false`.
pub fn parse_bool(s: &str) -> (r: Option<bool>)
    ensures
        r == bool_of(s@),
{
    if token_is(s, "true") {
        Some(true)
    } else if token_is(s, "false") {
        Some(false)
    } else {
        None
    }
}

} // verus!
