//! The decisions of the loop that drives a session: what a key means, what
//! an event does to the session, and when the loop ends.
//!
//! The loop itself waits for a key, reads the clock and draws; it hands each
//! event to `TestSession::advance` and does what the answer says.

use vstd::prelude::*;
use crate::model::{SessionModel, State};
use crate::session::TestSession;

verus! {

/// The key that leaves the results.
pub const QUIT_KEY: char = 'q';

/// A key of the keyboard, as far as the test tells keys apart.
#[derive(Clone, Copy, Debug, PartialEq, Eq, Structural)]
pub enum Key {
    Char(char),
    Backspace,
    Escape,
    Other,
}

/// What happened to a key.
#[derive(Clone, Copy, Debug, PartialEq, Eq, Structural)]
pub enum KeyKind {
    Press,
    Repeat,
    Release,
}

/// What the loop hands to the session in one turn.
#[derive(Clone, Copy, Debug, PartialEq, Eq, Structural)]
pub enum InputEvent {
    CharacterTyped(char),
    BackspacePressed,
    CancelRequested,
    /// The wait for a key timed out, or what came was no key to act on.
    NoEvent,
}

/// How a run ended.
#[derive(Clone, Copy, Debug, PartialEq, Eq, Structural)]
pub enum Outcome {
    /// The run was broken off; there is no result to report.
    Cancelled,
    /// The test was finished and its result was shown.
    Completed,
}

/// What the loop does after a turn.
#[derive(Clone, Copy, Debug, PartialEq, Eq, Structural)]
pub enum LoopAction {
    Continue,
    Exit(Outcome),
}

impl InputEvent {
    /// The event that a key stands for: only a key going down counts, and
    /// of those a character, backspace and escape.
    pub open spec fn of_key(key: Key, kind: KeyKind) -> InputEvent {
        if kind == KeyKind::Press {
            match key {
                Key::Char(c) => InputEvent::CharacterTyped(c),
                Key::Backspace => InputEvent::BackspacePressed,
                Key::Escape => InputEvent::CancelRequested,
                Key::Other => InputEvent::NoEvent,
            }
        } else {
            InputEvent::NoEvent
        }
    }

    /// Computes `of_key`.
    pub fn from_key(key: Key, kind: KeyKind) -> (event: InputEvent)
        ensures
            event == InputEvent::of_key(key, kind),
    {
        match kind {
            KeyKind::Press => match key {
                Key::Char(c) => InputEvent::CharacterTyped(c),
                Key::Backspace => InputEvent::BackspacePressed,
                Key::Escape => InputEvent::CancelRequested,
                Key::Other => InputEvent::NoEvent,
            },
            _ => InputEvent::NoEvent,
        }
    }
}

impl SessionModel {
    /// What the loop does after `event`: a cancel ends the run at once, the
    /// quit key ends it once the session has finished, and anything else
    /// lets it go on.
    pub open spec fn action(self, event: InputEvent) -> LoopAction {
        match event {
            InputEvent::CancelRequested => LoopAction::Exit(Outcome::Cancelled),
            InputEvent::CharacterTyped(c) => if self.state() == State::Finished && c == QUIT_KEY {
                LoopAction::Exit(Outcome::Completed)
            } else {
                LoopAction::Continue
            },
            _ => LoopAction::Continue,
        }
    }

    /// The session after one turn of the loop, in which `event` came at
    /// `now`. An event that ends the run leaves the session as it is; any
    /// other is applied, and then the session ticks.
    pub open spec fn advance(self, event: InputEvent, now: nat) -> SessionModel {
        match event {
            InputEvent::CancelRequested => self,
            InputEvent::CharacterTyped(c) => self.submit_character(c, now).tick(now),
            InputEvent::BackspacePressed => self.delete_last_character().tick(now),
            InputEvent::NoEvent => self.tick(now),
        }
    }
}

impl TestSession {
    /// Breaks the run off. The session is left as it is, so one that has not
    /// finished has no result, then or later.
    pub fn cancel(&self) -> (outcome: Outcome)
        ensures
            outcome == Outcome::Cancelled,
    {
        Outcome::Cancelled
    }

    /// One turn of the loop: applies `event`, which came at `now`, to the
    /// session, and says whether the loop goes on.
    pub fn advance(&mut self, event: InputEvent, now: u64) -> (action: LoopAction)
        requires
            old(self)@.wf(),
        ensures
            action == old(self)@.action(event),
            final(self)@ == old(self)@.advance(event, now as nat),
            final(self)@.wf(),
    {
        match event {
            InputEvent::CancelRequested => {
                return LoopAction::Exit(self.cancel());
            },
            InputEvent::CharacterTyped(c) => {
                if self.state() == State::Finished {
                    if c == QUIT_KEY {
                        return LoopAction::Exit(Outcome::Completed);
                    }
                } else {
                    self.submit_character(c, now);
                }
            },
            InputEvent::BackspacePressed => {
                self.delete_last_character();
            },
            InputEvent::NoEvent => {},
        }
        self.tick(now);
        LoopAction::Continue
    }
}

} // verus!
