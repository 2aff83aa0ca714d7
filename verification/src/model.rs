//! The typing test as a state machine over mathematical values.
//!
//! A `SessionModel` is what a session is at one moment; the functions on it
//! say what each operation makes of it. Instants are milliseconds on a clock
//! of the caller's choosing, durations are whole seconds.

use vstd::prelude::*;
use crate::speed::{since, wpm_milli, SamplePoint};

verus! {

/// Least time, in milliseconds, between two samples of the speed.
pub const SAMPLE_INTERVAL_MILLIS: u64 = 500;

/// The phase a session is in.
#[derive(Clone, Copy, Debug, PartialEq, Eq, Structural)]
pub enum State {
    /// Keystrokes are accepted and the speed is sampled.
    Typing,
    /// The test is over; nothing changes any more.
    Finished,
}

/// A session at one moment.
#[verifier::ext_equal]
pub struct SessionModel {
    /// The text to type.
    pub target: Seq<char>,
    /// The keystrokes so far, position by position against `target`.
    pub typed: Seq<char>,
    /// Seconds the test lasts, counted from the first keystroke; at least
    /// one.
    pub duration: nat,
    /// When the first keystroke came.
    pub start: Option<nat>,
    /// When the session finished.
    pub end: Option<nat>,
    /// The speed observed so far, oldest first.
    pub samples: Seq<SamplePoint>,
    /// When the last sample was taken; before the first one, when the
    /// session was made.
    pub last_sample: nat,
}

impl SessionModel {
    /// The session as it is made at `now`: nothing typed, the clock not
    /// started.
    pub open spec fn fresh(target: Seq<char>, duration: nat, now: nat) -> SessionModel {
        SessionModel {
            target,
            typed: Seq::empty(),
            duration,
            start: None,
            end: None,
            samples: Seq::empty(),
            last_sample: now,
        }
    }

    /// The phase the session is in: finished once it has an end.
    pub open spec fn state(self) -> State {
        if self.end is Some {
            State::Finished
        } else {
            State::Typing
        }
    }

    /// Milliseconds from the first keystroke to `now`, or to the end once
    /// the session has finished; zero before the first keystroke.
    pub open spec fn elapsed(self, now: nat) -> nat {
        match self.start {
            None => 0,
            Some(start) => match self.end {
                Some(end) => since(end, start),
                None => since(now, start),
            },
        }
    }

    /// Whole seconds of the test that remain at `now`: all of them before
    /// the first keystroke, none once the duration has passed.
    pub open spec fn time_left(self, now: nat) -> nat {
        match self.start {
            None => self.duration,
            Some(start) => since(self.duration, since(now, start) / 1000),
        }
    }

    /// The speed at `now`, in thousandths of a word per minute.
    pub open spec fn current_wpm(self, now: nat) -> nat {
        wpm_milli(self.typed.len(), self.elapsed(now))
    }

    /// Whether the test is over at `now`: the time is up, or the whole
    /// text has been typed.
    pub open spec fn is_finished(self, now: nat) -> bool {
        self.time_left(now) == 0 || self.typed.len() == self.target.len()
    }

    /// The speed the test ended with, in thousandths of a word per minute:
    /// there is one once the session has finished, and not before.
    pub open spec fn final_wpm(self) -> Option<nat> {
        match self.end {
            Some(end) => Some(self.current_wpm(end)),
            None => None,
        }
    }

    /// Whether a sample is to be taken at `now`: the clock runs, and the
    /// last sample is at least half a second old.
    pub open spec fn sample_due(self, now: nat) -> bool {
        self.start is Some && since(now, self.last_sample) >= SAMPLE_INTERVAL_MILLIS
    }

    /// The session after the keystroke `c` at `now`. The first keystroke
    /// starts the clock; one beyond the end of the text is dropped.
    pub open spec fn submit_character(self, c: char, now: nat) -> SessionModel {
        if self.state() == State::Finished {
            self
        } else {
            SessionModel {
                start: if self.start is None { Some(now) } else { self.start },
                typed: if self.typed.len() < self.target.len() {
                    self.typed.push(c)
                } else {
                    self.typed
                },
                ..self
            }
        }
    }

    /// The session after a backspace: without its last keystroke, if it has
    /// one.
    pub open spec fn delete_last_character(self) -> SessionModel {
        if self.state() == State::Finished || self.typed.len() == 0 {
            self
        } else {
            SessionModel { typed: self.typed.drop_last(), ..self }
        }
    }

    /// The session with the speed at `now` recorded, if a sample is due.
    pub open spec fn sampled(self, now: nat) -> SessionModel {
        if self.sample_due(now) {
            SessionModel {
                samples: self.samples.push(
                    SamplePoint {
                        elapsed_millis: self.elapsed(now),
                        wpm_milli: self.current_wpm(now),
                    },
                ),
                last_sample: now,
                ..self
            }
        } else {
            self
        }
    }

    /// The session finished at `now`, if the test is over by then.
    pub open spec fn completed(self, now: nat) -> SessionModel {
        if self.is_finished(now) {
            SessionModel { end: Some(now), ..self }
        } else {
            self
        }
    }

    /// The session after one turn of the loop at `now`: first the sample,
    /// then the end of the test. A finished session stays as it is.
    pub open spec fn tick(self, now: nat) -> SessionModel {
        if self.state() == State::Finished {
            self
        } else {
            self.sampled(now).completed(now)
        }
    }

    /// What holds of every session, whatever was done to it: the test lasts
    /// at least a second, no more is typed than the text holds, nothing is
    /// typed or sampled before the clock starts, a session with a text to
    /// type has not ended without having started, and no sample is faster
    /// than the whole text in one second.
    pub open spec fn wf(self) -> bool {
        &&& self.duration > 0
        &&& self.typed.len() <= self.target.len()
        &&& self.start is None ==> self.typed.len() == 0 && self.samples.len() == 0
        &&& self.end is Some && self.target.len() > 0 ==> self.start is Some
        &&& forall|i: int|
            0 <= i < self.samples.len() ==> (#[trigger] self.samples[i]).wpm_milli <= 12_000
                * self.target.len()
    }
}

} // verus!
