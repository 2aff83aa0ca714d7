//! Typing speed in words per minute, as exact integer arithmetic.
//!
//! Instants and elapsed times are whole milliseconds; a speed is a whole
//! number of thousandths of a word per minute, rounded down.

use vstd::prelude::*;

verus! {

/// Characters that count as one word.
pub const CHARS_PER_WORD: u64 = 5;

/// Milliseconds in a minute.
pub const MILLIS_PER_MINUTE: u64 = 60_000;

/// Shortest elapsed time, in milliseconds, that a speed is computed over.
pub const MIN_ELAPSED_MILLIS: u64 = 1000;

/// Thousandths of a word per minute that one character per millisecond is:
/// a fifth of a word, sixty thousand times a minute, in thousandths.
pub const MILLI_WPM_PER_CHAR_PER_MILLI: u64 = 1000 * MILLIS_PER_MINUTE / CHARS_PER_WORD;

/// The time from `earlier` to `later`, and zero where `later` comes first.
pub open spec fn since(later: nat, earlier: nat) -> nat {
    if later >= earlier {
        (later - earlier) as nat
    } else {
        0
    }
}

/// The elapsed time that a speed is computed over: `elapsed_millis`, but at
/// least one second.
pub open spec fn floored_elapsed(elapsed_millis: nat) -> nat {
    if elapsed_millis < MIN_ELAPSED_MILLIS {
        MIN_ELAPSED_MILLIS as nat
    } else {
        elapsed_millis
    }
}

/// Words per minute, in thousandths, of `chars` characters typed in
/// `elapsed_millis` milliseconds: `(chars / 5) / (minutes elapsed)`, the
/// elapsed time floored at one second.
pub open spec fn wpm_milli(chars: nat, elapsed_millis: nat) -> nat {
    (chars * 12_000_000) / floored_elapsed(elapsed_millis)
}

/// One observation of the typing speed.
#[derive(Clone, Copy, Debug, PartialEq, Eq, Structural)]
pub struct SpeedSample {
    /// Milliseconds from the session's start to the observation.
    pub elapsed_millis: u64,
    /// The speed observed, in thousandths of a word per minute.
    pub wpm_milli: u128,
}

/// A `SpeedSample` over unbounded integers.
pub struct SamplePoint {
    pub elapsed_millis: nat,
    pub wpm_milli: nat,
}

impl View for SpeedSample {
    type V = SamplePoint;

    open spec fn view(&self) -> SamplePoint {
        SamplePoint { elapsed_millis: self.elapsed_millis as nat, wpm_milli: self.wpm_milli as nat }
    }
}

/// The samples of `samples`, each over unbounded integers.
pub open spec fn sample_points(samples: Seq<SpeedSample>) -> Seq<SamplePoint> {
    samples.map_values(|s: SpeedSample| s@)
}

/// Computes `wpm_milli` on machine integers.
pub fn compute_wpm_milli(chars: usize, elapsed_millis: u64) -> (wpm: u128)
    ensures
        wpm == wpm_milli(chars as nat, elapsed_millis as nat),
{
    let millis: u64 = if elapsed_millis < MIN_ELAPSED_MILLIS {
        MIN_ELAPSED_MILLIS
    } else {
        elapsed_millis
    };
    assert(chars * MILLI_WPM_PER_CHAR_PER_MILLI == chars * 12_000_000) by (nonlinear_arith)
        requires
            MILLI_WPM_PER_CHAR_PER_MILLI == 12_000_000,
    ;
    (chars as u128 * MILLI_WPM_PER_CHAR_PER_MILLI as u128) / (millis as u128)
}

/// An elapsed time of at most one second is read as one second: the
/// speed over it is exactly twelve words per minute for each character.
pub proof fn lemma_wpm_floor(chars: nat, elapsed_millis: nat)
    requires
        elapsed_millis <= 1000,
    ensures
        wpm_milli(chars, elapsed_millis) == wpm_milli(chars, 1000),
        wpm_milli(chars, elapsed_millis) == 12_000 * chars,
{
    assert((chars * 12_000_000) / 1000 == 12_000 * chars) by (nonlinear_arith);
}

/// No speed exceeds twelve words per minute for each character typed,
/// however short the elapsed time.
pub proof fn lemma_wpm_capped(chars: nat, elapsed_millis: nat)
    ensures
        wpm_milli(chars, elapsed_millis) <= 12_000 * chars,
{
    let millis = floored_elapsed(elapsed_millis);
    assert((chars * 12_000_000) / millis <= 12_000 * chars) by (nonlinear_arith)
        requires
            millis >= 1000,
    {
        assert(chars * 12_000_000 == (12_000 * chars) * 1000);
        assert((12_000 * chars) * 1000 <= (12_000 * chars) * millis);
        assert(((12_000 * chars) * millis) / millis == 12_000 * chars);
    }
}

/// The speed over a whole number of minutes is exact: `chars` characters in
/// `minutes` minutes, where `chars` is a multiple of `5 * minutes`, are
/// `chars / (5 * minutes)` words per minute with nothing rounded away.
pub proof fn lemma_wpm_whole_minutes(words_per_minute: nat, minutes: nat)
    requires
        minutes > 0,
    ensures
        wpm_milli(5 * words_per_minute * minutes, 60_000 * minutes) == 1000 * words_per_minute,
{
    let chars = 5 * words_per_minute * minutes;
    let millis = 60_000 * minutes;
    assert((chars * 12_000_000) / millis == 1000 * words_per_minute) by (nonlinear_arith)
        requires
            chars == 5 * words_per_minute * minutes,
            millis == 60_000 * minutes,
            minutes > 0,
    {
        assert(chars * 12_000_000 == (1000 * words_per_minute) * millis);
        assert(((1000 * words_per_minute) * millis) / millis == 1000 * words_per_minute);
    }
}

} // verus!
