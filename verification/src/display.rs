//! What a screen shows of a session, worked out from its state: how each
//! character of the text stands, where the caret is, and how far the axes
//! of the speed chart reach.

use vstd::prelude::*;
use crate::model::SessionModel;
use crate::session::TestSession;
use crate::speed::{sample_points, SamplePoint, SpeedSample};

verus! {

/// Where the time axis ends while there is no sample, in milliseconds.
pub const EMPTY_TIME_AXIS_MILLIS: u64 = 1000;

/// Room that the speed axis leaves above the fastest sample, in thousandths
/// of a word per minute.
pub const SPEED_HEADROOM_MILLI: u128 = 10_000;

/// How one character of the text stands.
#[derive(Clone, Copy, Debug, PartialEq, Eq, Structural)]
pub enum CharStatus {
    /// Typed, and as the text has it.
    Correct,
    /// Typed, and not as the text has it.
    Incorrect,
    /// Not typed yet.
    Pending,
}

/// Where the axes of the speed chart end.
#[derive(Clone, Copy, Debug, PartialEq, Eq, Structural)]
pub struct ChartBounds {
    /// End of the time axis, in milliseconds of elapsed time.
    pub elapsed_millis: u64,
    /// End of the speed axis, in thousandths of a word per minute.
    pub wpm_milli: u128,
}

/// The fastest speed among `samples`, and zero where there is none.
pub open spec fn peak_wpm(samples: Seq<SamplePoint>) -> nat
    decreases samples.len(),
{
    if samples.len() == 0 {
        0
    } else {
        let earlier = peak_wpm(samples.drop_last());
        if samples.last().wpm_milli > earlier {
            samples.last().wpm_milli
        } else {
            earlier
        }
    }
}

impl SessionModel {
    /// How the character at `i` of the text stands.
    pub open spec fn char_status(self, i: int) -> CharStatus {
        if i < self.typed.len() {
            if self.typed[i] == self.target[i] {
                CharStatus::Correct
            } else {
                CharStatus::Incorrect
            }
        } else {
            CharStatus::Pending
        }
    }

    /// Where the caret stands: on the next character to type, while there
    /// is one.
    pub open spec fn caret(self) -> Option<nat> {
        if self.typed.len() < self.target.len() {
            Some(self.typed.len())
        } else {
            None
        }
    }

    /// Where the time axis ends: at the last sample, or after one second
    /// while there is none.
    pub open spec fn time_axis_end(self) -> nat {
        if self.samples.len() == 0 {
            EMPTY_TIME_AXIS_MILLIS as nat
        } else {
            self.samples.last().elapsed_millis
        }
    }

    /// Where the speed axis ends: ten words per minute above the fastest
    /// sample.
    pub open spec fn speed_axis_end(self) -> nat {
        peak_wpm(self.samples) + SPEED_HEADROOM_MILLI as nat
    }
}

/// The peak is no slower than any sample, and where there is a sample it is
/// the speed of one.
pub proof fn lemma_peak_wpm(samples: Seq<SamplePoint>)
    ensures
        forall|i: int| 0 <= i < samples.len() ==> (#[trigger] samples[i]).wpm_milli <= peak_wpm(samples),
        samples.len() > 0 ==> exists|i: int|
            0 <= i < samples.len() && (#[trigger] samples[i]).wpm_milli == peak_wpm(samples),
    decreases samples.len(),
{
    if samples.len() > 0 {
        let earlier = samples.drop_last();
        lemma_peak_wpm(earlier);
        assert forall|i: int| 0 <= i < samples.len() implies (#[trigger] samples[i]).wpm_milli
            <= peak_wpm(samples) by {
            if i < earlier.len() {
                assert(earlier[i] == samples[i]);
            }
        }
        if samples.last().wpm_milli > peak_wpm(earlier) || earlier.len() == 0 {
            assert(samples[samples.len() - 1].wpm_milli == peak_wpm(samples));
        } else {
            let i = choose|i: int|
                0 <= i < earlier.len() && (#[trigger] earlier[i]).wpm_milli == peak_wpm(earlier);
            assert(samples[i] == earlier[i]);
        }
    }
}

impl TestSession {
    /// How each character of the text stands, in the order of the text.
    pub fn char_statuses(&self) -> (statuses: Vec<CharStatus>)
        ensures
            statuses@.len() == self@.target.len(),
            forall|i: int| 0 <= i < statuses@.len() ==> statuses@[i] == self@.char_status(i),
    {
        let target = self.target();
        let typed = self.typed();
        let mut statuses: Vec<CharStatus> = Vec::new();
        let mut i: usize = 0;
        while i < target.len()
            invariant
                i <= target.len(),
                target@ == self@.target,
                typed@ == self@.typed,
                statuses@.len() == i,
                forall|k: int| 0 <= k < i ==> statuses@[k] == self@.char_status(k),
            decreases target.len() - i,
        {
            let status = if i < typed.len() {
                if typed[i] == target[i] {
                    CharStatus::Correct
                } else {
                    CharStatus::Incorrect
                }
            } else {
                CharStatus::Pending
            };
            statuses.push(status);
            i += 1;
        }
        statuses
    }

    /// Where the caret stands: on the next character to type, while there
    /// is one.
    pub fn caret(&self) -> (caret: Option<usize>)
        ensures
            match caret {
                Some(position) => self@.caret() == Some(position as nat),
                None => self@.caret() is None,
            },
    {
        let position = self.typed().len();
        if position < self.target().len() {
            Some(position)
        } else {
            None
        }
    }

    /// Where the axes of the speed chart end.
    pub fn chart_bounds(&self) -> (bounds: ChartBounds)
        requires
            self@.wf(),
        ensures
            bounds.elapsed_millis == self@.time_axis_end(),
            bounds.wpm_milli == self@.speed_axis_end(),
    {
        let samples = self.samples();
        let ghost points = sample_points(samples@);
        let mut peak: u128 = 0;
        let mut i: usize = 0;
        while i < samples.len()
            invariant
                i <= samples.len(),
                points == sample_points(samples@),
                points == self@.samples,
                self@.wf(),
                peak == peak_wpm(points.take(i as int)),
                peak <= 12_000 * self@.target.len(),
            decreases samples.len() - i,
        {
            proof {
                assert(points.take(i + 1).drop_last() =~= points.take(i as int));
                assert(points.take(i + 1).last() == samples@[i as int]@);
                assert(points[i as int].wpm_milli <= 12_000 * self@.target.len());
            }
            if samples[i].wpm_milli > peak {
                peak = samples[i].wpm_milli;
            }
            i += 1;
        }
        proof {
            assert(points.take(i as int) =~= points);
            self.lemma_sizes_fit();
        }
        let elapsed_millis = if samples.len() == 0 {
            EMPTY_TIME_AXIS_MILLIS
        } else {
            samples[samples.len() - 1].elapsed_millis
        };
        ChartBounds { elapsed_millis, wpm_milli: peak + SPEED_HEADROOM_MILLI }
    }
}

} // verus!
