//! What a run is made with: the text, and the duration that the command
//! line may set.

use vstd::prelude::*;
use crate::text::chars_of;

verus! {

/// Seconds a test lasts where the command line sets no other duration.
pub const DEFAULT_DURATION: u64 = 15;

/// The text to type.
pub const REFERENCE_TEXT: &'static str =
    "Lorem ipsum dolor sit amet consectetur adipiscing elit sed do eiusmod tempor incididunt ut labore";

/// Whether `arg` is the flag that sets the duration, `-t`.
pub open spec fn is_duration_flag(arg: Seq<char>) -> bool {
    arg == seq!['-', 't']
}

pub open spec fn is_digit(c: char) -> bool {
    '0' <= c <= '9'
}

/// The number that the decimal digit `c` stands for.
pub open spec fn digit_value(c: char) -> nat
    recommends
        is_digit(c),
{
    (c as int - '0' as int) as nat
}

/// Whether `s` holds decimal digits and nothing else.
pub open spec fn all_digits(s: Seq<char>) -> bool {
    forall|i: int| 0 <= i < s.len() ==> is_digit(#[trigger] s[i])
}

/// The number that the decimal digits `s` spell, the last digit counting
/// least; zero for no digits.
pub open spec fn decimal_value(s: Seq<char>) -> nat
    recommends
        all_digits(s),
    decreases s.len(),
{
    if s.len() == 0 {
        0
    } else {
        decimal_value(s.drop_last()) * 10 + digit_value(s.last())
    }
}

/// `s` without the plus sign that may stand at its head.
pub open spec fn unsigned_part(s: Seq<char>) -> Seq<char> {
    if s.len() > 0 && s[0] == '+' {
        s.skip(1)
    } else {
        s
    }
}

/// The number of seconds that `s` spells: one or more decimal digits, after
/// a plus sign or without one, whose value a `u64` holds. Anything else,
/// a blank or a minus sign too, spells none.
pub open spec fn seconds_of(s: Seq<char>) -> Option<nat> {
    let digits = unsigned_part(s);
    if digits.len() > 0 && all_digits(digits) && decimal_value(digits) <= u64::MAX {
        Some(decimal_value(digits))
    } else {
        None
    }
}

/// The duration that the text after the flag sets: the number of seconds
/// it spells, where it spells one and that is not zero.
pub open spec fn duration_set_by(value: Seq<char>) -> Option<nat> {
    match seconds_of(value) {
        Some(seconds) => if seconds > 0 {
            Some(seconds)
        } else {
            None
        },
        None => None,
    }
}

/// The duration that the command line `args` asks for: what follows the
/// first `-t`, where that sets a duration, and the default otherwise. It
/// is never zero.
pub open spec fn duration_of(args: Seq<Seq<char>>) -> nat
    decreases args.len(),
{
    if args.len() == 0 {
        DEFAULT_DURATION as nat
    } else if is_duration_flag(args[0]) {
        if args.len() > 1 && duration_set_by(args[1]) is Some {
            duration_set_by(args[1])->0
        } else {
            DEFAULT_DURATION as nat
        }
    } else {
        duration_of(args.skip(1))
    }
}

/// Whatever the command line holds, the duration it asks for is at least
/// one second.
pub proof fn lemma_duration_is_positive(args: Seq<Seq<char>>)
    ensures
        duration_of(args) >= 1,
    decreases args.len(),
{
    if args.len() > 0 && !is_duration_flag(args[0]) {
        lemma_duration_is_positive(args.skip(1));
    }
}

/// The arguments `args`, each as its characters.
pub open spec fn args_view(args: Seq<String>) -> Seq<Seq<char>> {
    args.map_values(|arg: String| arg@)
}

/// More digits never spell less.
pub proof fn lemma_decimal_value_grows(s: Seq<char>, n: int)
    requires
        0 <= n <= s.len(),
    ensures
        decimal_value(s.take(n)) <= decimal_value(s),
    decreases s.len() - n,
{
    if n < s.len() {
        lemma_decimal_value_grows(s, n + 1);
        assert(s.take(n + 1).drop_last() =~= s.take(n));
    } else {
        assert(s.take(n) =~= s);
    }
}

/// Reads a number of seconds.
pub fn parse_seconds(text: &str) -> (seconds: Option<u64>)
    ensures
        match seconds {
            Some(value) => seconds_of(text@) == Some(value as nat),
            None => seconds_of(text@) is None,
        },
{
    let chars = chars_of(text);
    let first: usize = if chars.len() > 0 && chars[0] == '+' { 1 } else { 0 };
    let ghost digits = unsigned_part(chars@);
    assert(digits =~= chars@.skip(first as int));
    if first == chars.len() {
        return None;
    }
    let mut value: u64 = 0;
    let mut i: usize = first;
    while i < chars.len()
        invariant
            first <= i <= chars.len(),
            chars@ == text@,
            digits == unsigned_part(text@),
            digits == chars@.skip(first as int),
            all_digits(digits.take(i - first)),
            value == decimal_value(digits.take(i - first)),
        decreases chars.len() - i,
    {
        let c = chars[i];
        let ghost seen = digits.take(i - first);
        let ghost next = digits.take(i - first + 1);
        proof {
            assert(next.drop_last() =~= seen);
            assert(next.last() == c);
        }
        if !('0' <= c && c <= '9') {
            proof {
                assert(digits[i - first] == c);
            }
            return None;
        }
        let digit: u64 = (c as u32 - '0' as u32) as u64;
        let grown = match value.checked_mul(10) {
            Some(tenfold) => tenfold.checked_add(digit),
            None => None,
        };
        match grown {
            Some(v) => {
                value = v;
            },
            None => {
                proof {
                    assert(decimal_value(next) > u64::MAX);
                    lemma_decimal_value_grows(digits, i - first + 1);
                }
                return None;
            },
        }
        proof {
            assert forall|k: int| 0 <= k < next.len() implies is_digit(#[trigger] next[k]) by {
                if k < seen.len() {
                    assert(next[k] == seen[k]);
                }
            }
        }
        i += 1;
    }
    proof {
        assert(digits.take(i - first) =~= digits);
    }
    Some(value)
}

/// The duration, in seconds, that the command line `args` asks for. A
/// value that is missing, malformed or zero gives the default.
pub fn parse_duration(args: &Vec<String>) -> (seconds: u64)
    ensures
        seconds == duration_of(args_view(args@)),
        seconds >= 1,
{
    let ghost all = args_view(args@);
    let mut i: usize = 0;
    assert(all.skip(0) =~= all);
    while i < args.len()
        invariant
            i <= args.len(),
            all == args_view(args@),
            duration_of(all) == duration_of(all.skip(i as int)),
        decreases args.len() - i,
    {
        let ghost rest = all.skip(i as int);
        proof {
            assert(rest[0] == args@[i as int]@);
            assert(rest.skip(1) =~= all.skip(i + 1));
        }
        let arg = chars_of(args[i].as_str());
        if arg.len() == 2 && arg[0] == '-' && arg[1] == 't' {
            proof {
                assert(arg@ =~= seq!['-', 't']);
            }
            if i + 1 < args.len() {
                proof {
                    assert(rest[1] == args@[i + 1]@);
                }
                return match parse_seconds(args[i + 1].as_str()) {
                    Some(value) => if value > 0 {
                        value
                    } else {
                        DEFAULT_DURATION
                    },
                    None => DEFAULT_DURATION,
                };
            }
            return DEFAULT_DURATION;
        }
        proof {
            assert(!is_duration_flag(arg@)) by {
                if is_duration_flag(arg@) {
                    assert(seq!['-', 't'].len() == 2);
                    assert(seq!['-', 't'][0] == '-');
                    assert(seq!['-', 't'][1] == 't');
                }
            }
        }
        i += 1;
    }
    DEFAULT_DURATION
}

} // verus!
