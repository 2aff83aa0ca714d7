//! What holds of every session: the invariants of the state machine, proved
//! of each operation and of every run of the loop.

use vstd::prelude::*;
use crate::driver::{InputEvent, LoopAction, Outcome};
use crate::model::{SessionModel, State};
use crate::speed::lemma_wpm_capped;

verus! {

/// A keystroke and the instant it came at.
pub struct Keystroke {
    pub c: char,
    pub at: nat,
}

/// One turn of the loop: the event and the instant it came at.
pub struct Turn {
    pub event: InputEvent,
    pub at: nat,
}

/// Whether the instants of `turns` never go back, nor before `from`.
pub open spec fn in_order(turns: Seq<Turn>, from: nat) -> bool {
    &&& forall|i: int| 0 <= i < turns.len() ==> from <= (#[trigger] turns[i]).at
    &&& forall|i: int, j: int|
        0 <= i <= j < turns.len() ==> (#[trigger] turns[i]).at <= (#[trigger] turns[j]).at
}

impl SessionModel {
    /// The session after the keystrokes `keys`, one after the other.
    pub open spec fn submit_all(self, keys: Seq<Keystroke>) -> SessionModel
        decreases keys.len(),
    {
        if keys.len() == 0 {
            self
        } else {
            self.submit_all(keys.drop_last()).submit_character(keys.last().c, keys.last().at)
        }
    }

    /// The session after the loop has taken `turns`, one after the other.
    pub open spec fn run(self, turns: Seq<Turn>) -> SessionModel
        decreases turns.len(),
    {
        if turns.len() == 0 {
            self
        } else {
            self.run(turns.drop_last()).advance(turns.last().event, turns.last().at)
        }
    }

    /// Whether `later` holds every sample of `self`, in the same places.
    pub open spec fn samples_kept_by(self, later: SessionModel) -> bool {
        &&& self.samples.len() <= later.samples.len()
        &&& later.samples.take(self.samples.len() as int) == self.samples
    }

    /// What holds of a session as long as its clock has not run backwards,
    /// `now` being the latest instant it was handed: nothing it recorded
    /// lies after `now`, it did not end before it started, its last sample
    /// is the one taken at `last_sample`, and any two of its samples lie at
    /// least half a second apart, the later one later.
    pub open spec fn timely(self, now: nat) -> bool {
        &&& self.last_sample <= now
        &&& self.start matches Some(start) ==> start <= now
        &&& self.end matches Some(end) ==> end <= now && (self.start matches Some(start) ==> start
            <= end)
        &&& self.samples.len() > 0 ==> (self.start matches Some(start) && start <= self.last_sample
            && self.samples.last().elapsed_millis == self.last_sample - start)
        &&& forall|i: int, j: int|
            0 <= i < j < self.samples.len() ==> (#[trigger] self.samples[i]).elapsed_millis + 500
                <= (#[trigger] self.samples[j]).elapsed_millis
    }
}

/// A new session is well formed, in the `Typing` state, with nothing typed,
/// no sample and the clock not started.
pub proof fn lemma_fresh(target: Seq<char>, duration: nat, now: nat)
    requires
        duration > 0,
    ensures
        SessionModel::fresh(target, duration, now).wf(),
        SessionModel::fresh(target, duration, now).timely(now),
        SessionModel::fresh(target, duration, now).state() == State::Typing,
        SessionModel::fresh(target, duration, now).final_wpm() is None,
{
}

/// A keystroke keeps a session well formed: what is typed never grows
/// beyond the text. It adds one character where there is room and the
/// session has not finished, and none otherwise.
pub proof fn lemma_submit_character(m: SessionModel, c: char, now: nat)
    requires
        m.wf(),
    ensures
        m.submit_character(c, now).wf(),
        m.submit_character(c, now).typed.len() <= m.target.len(),
        m.submit_character(c, now).typed.len() == if m.state() == State::Typing && m.typed.len()
            < m.target.len() {
            m.typed.len() + 1
        } else {
            m.typed.len()
        },
{
}

/// After any sequence of keystrokes, what is typed is no longer than the
/// text, and the session is well formed.
pub proof fn lemma_submit_all_within_target(m: SessionModel, keys: Seq<Keystroke>)
    requires
        m.wf(),
    ensures
        m.submit_all(keys).wf(),
        m.submit_all(keys).typed.len() <= m.target.len(),
        m.submit_all(keys).target == m.target,
    decreases keys.len(),
{
    if keys.len() > 0 {
        lemma_submit_all_within_target(m, keys.drop_last());
        lemma_submit_character(m.submit_all(keys.drop_last()), keys.last().c, keys.last().at);
    }
}

/// A backspace on an empty buffer changes nothing; on any other buffer of a
/// session that has not finished it takes exactly the last keystroke. The
/// session stays well formed.
pub proof fn lemma_delete_last_character(m: SessionModel)
    requires
        m.wf(),
    ensures
        m.delete_last_character().wf(),
        m.typed.len() == 0 ==> m.delete_last_character() == m,
        m.typed.len() > 0 && m.state() == State::Typing ==> m.delete_last_character().typed
            == m.typed.take(m.typed.len() - 1),
        m.delete_last_character().start == m.start,
{
}

/// A tick keeps a session well formed.
pub proof fn lemma_tick_wf(m: SessionModel, now: nat)
    requires
        m.wf(),
    ensures
        m.tick(now).wf(),
{
    lemma_wpm_capped(m.typed.len(), m.elapsed(now));
}

/// A tick on a session that has not finished finishes it exactly when the
/// test is over, and then at the instant of the tick. So a session whose
/// text has been typed in full finishes on the next tick, whatever time is
/// left.
pub proof fn lemma_tick_completion(m: SessionModel, now: nat)
    requires
        m.state() == State::Typing,
    ensures
        m.is_finished(now) ==> m.tick(now).end == Some(now) && m.tick(now).state()
            == State::Finished,
        !m.is_finished(now) ==> m.tick(now).state() == State::Typing,
        m.typed.len() == m.target.len() ==> m.tick(now).end == Some(now),
        m.time_left(now) == 0 ==> m.tick(now).end == Some(now),
{
}

/// A tick takes a sample exactly when the session has not finished, its
/// clock runs and the last sample is half a second old; the sample holds
/// the elapsed time and the speed before the tick.
pub proof fn lemma_tick_sampling(m: SessionModel, now: nat)
    ensures
        m.state() == State::Typing && m.sample_due(now) ==> {
            &&& m.tick(now).samples.len() == m.samples.len() + 1
            &&& m.tick(now).samples.last().elapsed_millis == m.elapsed(now)
            &&& m.tick(now).samples.last().wpm_milli == m.current_wpm(now)
            &&& m.tick(now).last_sample == now
        },
        !(m.state() == State::Typing && m.sample_due(now)) ==> {
            &&& m.tick(now).samples == m.samples
            &&& m.tick(now).last_sample == m.last_sample
        },
        m.samples_kept_by(m.tick(now)),
{
    assert(m.tick(now).samples.take(m.samples.len() as int) =~= m.samples);
}

/// A session that has finished is frozen: no keystroke, backspace, tick or
/// turn of the loop changes anything in it.
pub proof fn lemma_finished_is_frozen(m: SessionModel, event: InputEvent, c: char, now: nat)
    requires
        m.state() == State::Finished,
    ensures
        m.submit_character(c, now) == m,
        m.delete_last_character() == m,
        m.tick(now) == m,
        m.advance(event, now) == m,
{
}

/// The clock starts with the first keystroke that a session takes before it
/// has finished, at the instant of that keystroke.
pub proof fn lemma_first_keystroke_starts_clock(m: SessionModel, c: char, now: nat)
    requires
        m.state() == State::Typing,
        m.start is None,
    ensures
        m.submit_character(c, now).start == Some(now),
{
}

/// Once the clock has started, no operation moves its start.
pub proof fn lemma_start_is_stable(m: SessionModel, event: InputEvent, c: char, now: nat)
    requires
        m.start is Some,
    ensures
        m.submit_character(c, now).start == m.start,
        m.delete_last_character().start == m.start,
        m.tick(now).start == m.start,
        m.advance(event, now).start == m.start,
{
}

/// Once a session has ended, no operation moves its end.
pub proof fn lemma_end_is_stable(m: SessionModel, event: InputEvent, c: char, now: nat)
    requires
        m.end is Some,
    ensures
        m.submit_character(c, now).end == m.end,
        m.delete_last_character().end == m.end,
        m.tick(now).end == m.end,
        m.advance(event, now).end == m.end,
{
}

/// One turn of the loop keeps a session well formed, keeps its text and
/// duration, keeps every sample it has, and adds at most one.
pub proof fn lemma_advance(m: SessionModel, event: InputEvent, now: nat)
    requires
        m.wf(),
    ensures
        m.advance(event, now).wf(),
        m.advance(event, now).target == m.target,
        m.advance(event, now).duration == m.duration,
        m.samples_kept_by(m.advance(event, now)),
        m.advance(event, now).samples.len() <= m.samples.len() + 1,
{
    match event {
        InputEvent::CancelRequested => {
            assert(m.samples.take(m.samples.len() as int) =~= m.samples);
        },
        InputEvent::CharacterTyped(c) => {
            let typed = m.submit_character(c, now);
            lemma_tick_wf(typed, now);
            lemma_tick_sampling(typed, now);
        },
        InputEvent::BackspacePressed => {
            let erased = m.delete_last_character();
            lemma_tick_wf(erased, now);
            lemma_tick_sampling(erased, now);
        },
        InputEvent::NoEvent => {
            lemma_tick_wf(m, now);
            lemma_tick_sampling(m, now);
        },
    }
}

/// A cancel ends the run and leaves the session as it is: one that has not
/// finished has no end and no final speed, then as before.
pub proof fn lemma_cancel_reports_nothing(m: SessionModel, now: nat)
    ensures
        m.action(InputEvent::CancelRequested) == LoopAction::Exit(Outcome::Cancelled),
        m.advance(InputEvent::CancelRequested, now) == m,
        m.end is None ==> m.advance(InputEvent::CancelRequested, now).end is None && m.advance(
            InputEvent::CancelRequested,
            now,
        ).final_wpm() is None,
{
}

/// A session has a final speed exactly when it has finished, and no event
/// but the quit key in a finished session ends a run as completed.
pub proof fn lemma_result_only_when_finished(m: SessionModel, event: InputEvent)
    ensures
        m.final_wpm() is Some <==> m.state() == State::Finished,
        m.action(event) == LoopAction::Exit(Outcome::Completed) ==> m.final_wpm() is Some,
{
}

/// After a turn at an instant no earlier than any before it, the session
/// is timely again.
pub proof fn lemma_advance_timely(m: SessionModel, event: InputEvent, before: nat, now: nat)
    requires
        m.wf(),
        m.timely(before),
        before <= now,
    ensures
        m.advance(event, now).timely(now),
{
    let applied = match event {
        InputEvent::CharacterTyped(c) => m.submit_character(c, now),
        InputEvent::BackspacePressed => m.delete_last_character(),
        _ => m,
    };
    assert(applied.timely(now));
    assert(applied.wf());
    if event != InputEvent::CancelRequested {
        assert(m.advance(event, now) == applied.tick(now));
        lemma_tick_timely(applied, now);
    }
}

/// After a tick at an instant no earlier than any before it, the session
/// is timely again.
pub proof fn lemma_tick_timely(m: SessionModel, now: nat)
    requires
        m.wf(),
        m.timely(now),
    ensures
        m.tick(now).timely(now),
{
    if m.state() == State::Typing {
        let s = m.sampled(now);
        if m.sample_due(now) {
            let start = m.start->0;
            assert(s.samples.last().elapsed_millis == now - start);
            assert forall|i: int, j: int| 0 <= i < j < s.samples.len() implies (
            #[trigger] s.samples[i]).elapsed_millis + 500 <= (
            #[trigger] s.samples[j]).elapsed_millis by {
                if j == m.samples.len() {
                    let last = m.samples.len() - 1;
                    assert(s.samples[i] == m.samples[i]);
                    if i < last {
                        assert(m.samples[i].elapsed_millis + 500 <= m.samples[last].elapsed_millis);
                    }
                } else {
                    assert(s.samples[i] == m.samples[i]);
                    assert(s.samples[j] == m.samples[j]);
                }
            }
        }
        assert(s.timely(now));
    }
}

/// After any run of the loop the session is well formed, with the text and
/// the duration it began with and every sample it had.
pub proof fn lemma_run(m: SessionModel, turns: Seq<Turn>)
    requires
        m.wf(),
    ensures
        m.run(turns).wf(),
        m.run(turns).typed.len() <= m.target.len(),
        m.run(turns).target == m.target,
        m.run(turns).duration == m.duration,
        m.samples_kept_by(m.run(turns)),
        m.start is Some ==> m.run(turns).start == m.start,
        m.end is Some ==> m.run(turns) == m,
    decreases turns.len(),
{
    if turns.len() == 0 {
        assert(m.samples.take(m.samples.len() as int) =~= m.samples);
    } else {
        let before = m.run(turns.drop_last());
        let last = turns.last();
        lemma_run(m, turns.drop_last());
        lemma_advance(before, last.event, last.at);
        let after = before.advance(last.event, last.at);
        assert(after.samples.take(m.samples.len() as int) =~= after.samples.take(
            before.samples.len() as int,
        ).take(m.samples.len() as int));
    }
}

/// After a run of the loop whose instants never go back, the session is
/// timely: it did not end before it started, and any two of its samples
/// lie at least half a second apart in elapsed time.
pub proof fn lemma_run_timely(m: SessionModel, from: nat, turns: Seq<Turn>)
    requires
        m.wf(),
        m.timely(from),
        in_order(turns, from),
    ensures
        m.run(turns).timely(if turns.len() == 0 { from } else { turns.last().at }),
    decreases turns.len(),
{
    if turns.len() > 0 {
        let earlier = turns.drop_last();
        let last = turns.last();
        assert(in_order(earlier, from)) by {
            assert forall|i: int| 0 <= i < earlier.len() implies from <= (
            #[trigger] earlier[i]).at by {
                assert(earlier[i] == turns[i]);
            }
            assert forall|i: int, j: int| 0 <= i <= j < earlier.len() implies (
            #[trigger] earlier[i]).at <= (#[trigger] earlier[j]).at by {
                assert(earlier[i] == turns[i]);
                assert(earlier[j] == turns[j]);
            }
        }
        lemma_run_timely(m, from, earlier);
        lemma_run(m, earlier);
        let before = if earlier.len() == 0 { from } else { earlier.last().at };
        assert(before <= last.at) by {
            if earlier.len() > 0 {
                assert(earlier.last() == turns[turns.len() - 2]);
                assert(turns[turns.len() - 2].at <= turns[turns.len() - 1].at);
            } else {
                assert(from <= turns[turns.len() - 1].at);
            }
        }
        lemma_advance_timely(m.run(earlier), last.event, before, last.at);
    }
}

/// A session without a sample still counts its half second from the
/// instant it was made at.
pub proof fn lemma_unsampled_run(target: Seq<char>, duration: nat, made: nat, turns: Seq<Turn>)
    requires
        duration > 0,
    ensures
        SessionModel::fresh(target, duration, made).run(turns).samples.len() == 0
            ==> SessionModel::fresh(target, duration, made).run(turns).last_sample == made,
    decreases turns.len(),
{
    let fresh = SessionModel::fresh(target, duration, made);
    if turns.len() > 0 {
        let before = fresh.run(turns.drop_last());
        let last = turns.last();
        lemma_unsampled_run(target, duration, made, turns.drop_last());
        lemma_run(fresh, turns.drop_last());
        lemma_advance(before, last.event, last.at);
        let applied = match last.event {
            InputEvent::CharacterTyped(c) => before.submit_character(c, last.at),
            InputEvent::BackspacePressed => before.delete_last_character(),
            _ => before,
        };
        lemma_tick_sampling(applied, last.at);
    }
}

/// A run that lasts half a second with the clock started has a sample.
/// Where the last turn of a run comes half a second or more after the
/// session was made, the session has not finished before it, and the clock
/// has started, by an earlier keystroke or by one in this turn, the session
/// holds at least one sample after it.
pub proof fn lemma_sample_after_half_second(
    target: Seq<char>,
    duration: nat,
    made: nat,
    turns: Seq<Turn>,
)
    requires
        duration > 0,
        turns.len() > 0,
        made + 500 <= turns.last().at,
        SessionModel::fresh(target, duration, made).run(turns.drop_last()).state()
            == State::Typing,
        SessionModel::fresh(target, duration, made).run(turns.drop_last()).start is Some
            || turns.last().event is CharacterTyped,
        turns.last().event != InputEvent::CancelRequested,
    ensures
        SessionModel::fresh(target, duration, made).run(turns).samples.len() > 0,
{
    let fresh = SessionModel::fresh(target, duration, made);
    let before = fresh.run(turns.drop_last());
    let last = turns.last();
    lemma_unsampled_run(target, duration, made, turns.drop_last());
    lemma_run(fresh, turns.drop_last());
    lemma_advance(before, last.event, last.at);
    let applied = match last.event {
        InputEvent::CharacterTyped(c) => before.submit_character(c, last.at),
        InputEvent::BackspacePressed => before.delete_last_character(),
        _ => before,
    };
    assert(fresh.run(turns) == applied.tick(last.at));
    lemma_tick_sampling(applied, last.at);
}

/// A session with a text to type does not end before its clock has
/// started: where it has an end it has a start. So it is after every run of
/// the loop from a new session whose text is not empty.
pub proof fn lemma_finished_has_started(m: SessionModel, turns: Seq<Turn>)
    requires
        m.wf(),
        m.target.len() > 0,
    ensures
        m.end is Some ==> m.start is Some,
        m.run(turns).end is Some ==> m.run(turns).start is Some,
{
    lemma_run(m, turns);
}

} // verus!
