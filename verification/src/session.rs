//! The session as it runs: `TestSession` holds the state and carries out the
//! operations of `SessionModel` on machine integers.

use vstd::prelude::*;
use crate::model::{SessionModel, State, SAMPLE_INTERVAL_MILLIS};
use crate::speed::{compute_wpm_milli, sample_points, SpeedSample};
use crate::text::chars_of;

verus! {

/// The instant `t` over unbounded integers.
pub open spec fn instant_view(t: Option<u64>) -> Option<nat> {
    match t {
        Some(millis) => Some(millis as nat),
        None => None,
    }
}

/// One run of the typing test.
pub struct TestSession {
    target: Vec<char>,
    typed: Vec<char>,
    duration: u64,
    start: Option<u64>,
    end: Option<u64>,
    samples: Vec<SpeedSample>,
    last_sample: u64,
}

impl View for TestSession {
    type V = SessionModel;

    closed spec fn view(&self) -> SessionModel {
        SessionModel {
            target: self.target@,
            typed: self.typed@,
            duration: self.duration as nat,
            start: instant_view(self.start),
            end: instant_view(self.end),
            samples: sample_points(self.samples@),
            last_sample: self.last_sample as nat,
        }
    }
}

impl TestSession {
    /// A session over `text` that lasts `duration` seconds, made at `now`.
    /// The duration is at least one second.
    pub fn new(text: &str, duration: u64, now: u64) -> (session: TestSession)
        requires
            duration > 0,
        ensures
            session@ == SessionModel::fresh(text@, duration as nat, now as nat),
            session@.wf(),
    {
        let session = TestSession {
            target: chars_of(text),
            typed: Vec::new(),
            duration,
            start: None,
            end: None,
            samples: Vec::new(),
            last_sample: now,
        };
        assert(session@.samples =~= Seq::<crate::speed::SamplePoint>::empty());
        session
    }

    /// What a session in memory holds fits machine integers.
    pub proof fn lemma_sizes_fit(&self)
        ensures
            self@.target.len() <= usize::MAX,
            self@.typed.len() <= usize::MAX,
            self@.samples.len() <= usize::MAX,
            self@.duration <= u64::MAX,
            self@.last_sample <= u64::MAX,
    {
        assert(self.target@.len() == self.target.len());
        assert(self.typed@.len() == self.typed.len());
        assert(self.samples@.len() == self.samples.len());
    }

    /// The text to type.
    pub fn target(&self) -> (target: &Vec<char>)
        ensures
            target@ == self@.target,
    {
        &self.target
    }

    /// The keystrokes so far.
    pub fn typed(&self) -> (typed: &Vec<char>)
        ensures
            typed@ == self@.typed,
    {
        &self.typed
    }

    /// Seconds the test lasts.
    pub fn duration(&self) -> (duration: u64)
        ensures
            duration == self@.duration,
    {
        self.duration
    }

    /// When the first keystroke came, if one has.
    pub fn start_instant(&self) -> (start: Option<u64>)
        ensures
            instant_view(start) == self@.start,
    {
        self.start
    }

    /// When the session finished, if it has.
    pub fn end_instant(&self) -> (end: Option<u64>)
        ensures
            instant_view(end) == self@.end,
    {
        self.end
    }

    /// When the last sample was taken; before the first one, when the
    /// session was made.
    pub fn last_sample_instant(&self) -> (last: u64)
        ensures
            last == self@.last_sample,
    {
        self.last_sample
    }

    /// The speed observed so far, oldest first.
    pub fn samples(&self) -> (samples: &Vec<SpeedSample>)
        ensures
            sample_points(samples@) == self@.samples,
    {
        &self.samples
    }

    /// The phase the session is in.
    pub fn state(&self) -> (state: State)
        ensures
            state == self@.state(),
    {
        if self.end.is_some() {
            State::Finished
        } else {
            State::Typing
        }
    }

    /// Milliseconds from the first keystroke to `now`, or to the end once
    /// the session has finished; zero before the first keystroke.
    pub fn elapsed(&self, now: u64) -> (millis: u64)
        ensures
            millis == self@.elapsed(now as nat),
    {
        match self.start {
            None => 0,
            Some(start) => match self.end {
                Some(end) => end.saturating_sub(start),
                None => now.saturating_sub(start),
            },
        }
    }

    /// Whole seconds of the test that remain at `now`.
    pub fn time_left(&self, now: u64) -> (seconds: u64)
        ensures
            seconds == self@.time_left(now as nat),
    {
        match self.start {
            None => self.duration,
            Some(start) => self.duration.saturating_sub(now.saturating_sub(start) / 1000),
        }
    }

    /// The speed at `now`, in thousandths of a word per minute.
    pub fn current_wpm(&self, now: u64) -> (wpm: u128)
        ensures
            wpm == self@.current_wpm(now as nat),
    {
        compute_wpm_milli(self.typed.len(), self.elapsed(now))
    }

    /// Whether the test is over at `now`: the time is up, or the whole
    /// text has been typed.
    pub fn is_finished(&self, now: u64) -> (finished: bool)
        ensures
            finished == self@.is_finished(now as nat),
    {
        self.time_left(now) == 0 || self.typed.len() == self.target.len()
    }

    /// The speed the test ended with, once it has ended.
    pub fn final_wpm(&self) -> (wpm: Option<u128>)
        ensures
            match wpm {
                Some(w) => self@.final_wpm() == Some(w as nat),
                None => self@.final_wpm() is None,
            },
    {
        match self.end {
            Some(end) => Some(self.current_wpm(end)),
            None => None,
        }
    }

    /// Takes the keystroke `c` at `now`. The first keystroke starts the
    /// clock; one beyond the end of the text is dropped, and so is any
    /// keystroke once the session has finished.
    pub fn submit_character(&mut self, c: char, now: u64)
        requires
            old(self)@.wf(),
        ensures
            final(self)@ == old(self)@.submit_character(c, now as nat),
            final(self)@.wf(),
    {
        if self.end.is_none() {
            if self.start.is_none() {
                self.start = Some(now);
            }
            if self.typed.len() < self.target.len() {
                self.typed.push(c);
            }
        }
    }

    /// Takes a backspace: the last keystroke goes, if there is one and the
    /// session has not finished.
    pub fn delete_last_character(&mut self)
        requires
            old(self)@.wf(),
        ensures
            final(self)@ == old(self)@.delete_last_character(),
            final(self)@.wf(),
    {
        if self.end.is_none() {
            self.typed.pop();
        }
    }

    /// One turn of the loop at `now`: records the speed if a sample is due,
    /// then finishes the session if the test is over. A finished session
    /// stays as it is.
    pub fn tick(&mut self, now: u64)
        requires
            old(self)@.wf(),
        ensures
            final(self)@ == old(self)@.tick(now as nat),
            final(self)@.wf(),
    {
        if self.end.is_some() {
            return ;
        }
        if self.start.is_some() && now.saturating_sub(self.last_sample) >= SAMPLE_INTERVAL_MILLIS {
            let sample = SpeedSample {
                elapsed_millis: self.elapsed(now),
                wpm_milli: self.current_wpm(now),
            };
            proof {
                crate::speed::lemma_wpm_capped(self@.typed.len(), self@.elapsed(now as nat));
                assert(sample_points(self.samples@.push(sample)) =~= sample_points(
                    self.samples@,
                ).push(sample@));
            }
            self.samples.push(sample);
            self.last_sample = now;
        }
        if self.is_finished(now) {
            self.end = Some(now);
        }
    }
}

} // verus!
