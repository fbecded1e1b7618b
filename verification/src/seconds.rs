//! Decimal durations, as video metadata spells them.

use vstd::prelude::*;
use vstd::std_specs::iter::IteratorSpec;

verus! {

/// Whether `c` is one of the ten ASCII digits.
pub open spec fn is_digit(c: char) -> bool {
    '0' <= c && c <= '9'
}

/// The value of the digit `c`.
pub open spec fn digit_value(c: char) -> nat
    recommends
        is_digit(c),
{
    (c as u32 - '0' as u32) as nat
}

/// Whether every character of `s` is a digit.
pub open spec fn all_digits(s: Seq<char>) -> bool {
    forall|i: int| 0 <= i < s.len() ==> is_digit(#[trigger] s[i])
}

/// The number that the digits of `s` spell in base ten, most significant first.
pub open spec fn digits_value(s: Seq<char>) -> nat
    decreases s.len(),
{
    if s.len() == 0 {
        0
    } else {
        digits_value(s.drop_last()) * 10 + digit_value(s.last())
    }
}

/// What is left of `s` once one leading plus sign, if there is one, is taken away.
pub open spec fn unsigned_part(s: Seq<char>) -> Seq<char> {
    if s.len() > 0 && s[0] == '+' {
        s.drop_first()
    } else {
        s
    }
}

/// The number of seconds that `s` spells: an optional plus sign, then at least one
/// digit and nothing else, with a value that fits in 64 bits.
pub open spec fn seconds_of(s: Seq<char>) -> Option<u64> {
    let body = unsigned_part(s);
    if body.len() > 0 && all_digits(body) && digits_value(body) <= u64::MAX {
        Some(digits_value(body) as u64)
    } else {
        None
    }
}

/// A longer run of digits never spells a smaller number than its own beginning.
pub proof fn lemma_prefix_value(s: Seq<char>, k: int)
    requires
        0 <= k <= s.len(),
    ensures
        digits_value(s.take(k)) <= digits_value(s),
    decreases s.len() - k,
{
    if k < s.len() {
        lemma_prefix_value(s, k + 1);
        assert(s.take(k + 1).drop_last() =~= s.take(k));
    } else {
        assert(s.take(k) =~= s);
    }
}

/// Reads a duration in whole seconds.
pub fn parse_seconds(text: &str) -> (seconds: Option<u64>)
    ensures
        seconds == seconds_of(text@),
{
    let mut chars = text.chars();
    let ghost body = unsigned_part(text@);
    let ghost mut seen: int = 0;
    let mut value: u64 = 0;
    let mut first = true;
    let mut any = false;
    loop
        invariant
            body == unsigned_part(text@),
            first ==> chars.remaining() == text@ && seen == 0 && value == 0,
            !first ==> chars.remaining() == body.skip(seen),
            !first ==> all_digits(body.take(seen)),
            !first ==> value == digits_value(body.take(seen)),
            0 <= seen <= body.len(),
            any <==> seen > 0,
            chars.decrease() is Some,
        decreases chars.decrease()->0,
    {
        match chars.next() {
            None => {
                proof {
                    if !first {
                        assert(body.take(seen) =~= body);
                    }
                }
                if !any {
                    return None;
                }
                return Some(value);
            },
            Some(c) => {
                if first && c == '+' {
                    first = false;
                    proof {
                        assert(body.take(0) =~= Seq::<char>::empty());
                        assert(body.skip(0) =~= body);
                    }
                } else {
                    proof {
                        if first {
                            assert(body.take(0) =~= Seq::<char>::empty());
                            assert(body.skip(0) =~= body);
                        }
                        assert(c == body[seen]);
                        assert(body.take(seen + 1).drop_last() =~= body.take(seen));
                        assert(body.skip(seen).drop_first() =~= body.skip(seen + 1));
                        lemma_prefix_value(body, seen + 1);
                    }
                    first = false;
                    if !('0' <= c && c <= '9') {
                        return None;
                    }
                    let digit: u64 = (c as u32 - '0' as u32) as u64;
                    let scaled = match value.checked_mul(10) {
                        Some(scaled) => scaled,
                        None => {
                            return None;
                        },
                    };
                    value =
                    match scaled.checked_add(digit) {
                        Some(total) => total,
                        None => {
                            return None;
                        },
                    };
                    any = true;
                    proof {
                        seen = seen + 1;
                    }
                }
            },
        }
    }
}

} // verus!
