use typing_speed::driver::{InputEvent, Key, KeyKind, LoopAction, Outcome, QUIT_KEY};
use typing_speed::model::State;
use typing_speed::session::TestSession;

const T0: u64 = 50_000;

#[test]
fn key_press_maps_to_event() {
    assert_eq!(
        InputEvent::from_key(Key::Char('x'), KeyKind::Press),
        InputEvent::CharacterTyped('x')
    );
    assert_eq!(
        InputEvent::from_key(Key::Backspace, KeyKind::Press),
        InputEvent::BackspacePressed
    );
    assert_eq!(
        InputEvent::from_key(Key::Escape, KeyKind::Press),
        InputEvent::CancelRequested
    );
    assert_eq!(InputEvent::from_key(Key::Other, KeyKind::Press), InputEvent::NoEvent);
}

#[test]
fn key_release_and_repeat_are_no_event() {
    for kind in [KeyKind::Release, KeyKind::Repeat] {
        for key in [Key::Char('x'), Key::Backspace, Key::Escape, Key::Other] {
            assert_eq!(InputEvent::from_key(key, kind), InputEvent::NoEvent);
        }
    }
}

#[test]
fn character_event_types_and_ticks() {
    let mut session = TestSession::new("ab", 15, T0);
    let action = session.advance(InputEvent::CharacterTyped('a'), T0 + 10);
    assert_eq!(action, LoopAction::Continue);
    assert_eq!(session.typed(), &vec!['a']);
    assert_eq!(session.start_instant(), Some(T0 + 10));
    assert_eq!(session.state(), State::Typing);
    let action = session.advance(InputEvent::CharacterTyped('b'), T0 + 20);
    assert_eq!(action, LoopAction::Continue);
    assert_eq!(session.state(), State::Finished);
    assert_eq!(session.end_instant(), Some(T0 + 20));
}

#[test]
fn backspace_event_deletes_and_ticks() {
    let mut session = TestSession::new("abc", 15, T0);
    session.advance(InputEvent::CharacterTyped('a'), T0);
    let action = session.advance(InputEvent::BackspacePressed, T0 + 600);
    assert_eq!(action, LoopAction::Continue);
    assert!(session.typed().is_empty());
    assert_eq!(session.samples().len(), 1);
    assert_eq!(session.samples()[0].wpm_milli, 0);
}

#[test]
fn no_event_only_ticks() {
    let mut session = TestSession::new("abc", 1, T0);
    session.advance(InputEvent::CharacterTyped('a'), T0);
    let action = session.advance(InputEvent::NoEvent, T0 + 1_000);
    assert_eq!(action, LoopAction::Continue);
    assert_eq!(session.typed(), &vec!['a']);
    assert_eq!(session.state(), State::Finished);
    assert_eq!(session.end_instant(), Some(T0 + 1_000));
}

#[test]
fn cancel_before_completion_leaves_end_unset() {
    let mut session = TestSession::new("abc", 15, T0);
    session.advance(InputEvent::CharacterTyped('a'), T0);
    let action = session.advance(InputEvent::CancelRequested, T0 + 100_000);
    assert_eq!(action, LoopAction::Exit(Outcome::Cancelled));
    assert_eq!(session.end_instant(), None);
    assert_eq!(session.state(), State::Typing);
    assert_eq!(session.final_wpm(), None);
    assert!(session.samples().is_empty());
    assert_eq!(session.cancel(), Outcome::Cancelled);
    assert_eq!(session.end_instant(), None);
}

#[test]
fn cancel_before_first_keystroke() {
    let mut session = TestSession::new("abc", 15, T0);
    let action = session.advance(InputEvent::CancelRequested, T0 + 5);
    assert_eq!(action, LoopAction::Exit(Outcome::Cancelled));
    assert_eq!(session.start_instant(), None);
    assert_eq!(session.final_wpm(), None);
}

#[test]
fn cancel_of_completed_text_skips_the_tick() {
    let mut session = TestSession::new("a", 15, T0);
    session.submit_character('a', T0);
    assert!(session.is_finished(T0 + 1));
    let action = session.advance(InputEvent::CancelRequested, T0 + 1);
    assert_eq!(action, LoopAction::Exit(Outcome::Cancelled));
    assert_eq!(session.end_instant(), None);
    assert_eq!(session.final_wpm(), None);
}

#[test]
fn cancel_in_finished_state_exits_as_cancelled() {
    let mut session = TestSession::new("a", 15, T0);
    session.advance(InputEvent::CharacterTyped('a'), T0);
    assert_eq!(session.state(), State::Finished);
    let action = session.advance(InputEvent::CancelRequested, T0 + 10);
    assert_eq!(action, LoopAction::Exit(Outcome::Cancelled));
    assert_eq!(session.end_instant(), Some(T0));
}

#[test]
fn quit_key_exits_only_when_finished() {
    assert_eq!(QUIT_KEY, 'q');
    let mut session = TestSession::new("qa", 15, T0);
    let action = session.advance(InputEvent::CharacterTyped('q'), T0);
    assert_eq!(action, LoopAction::Continue);
    assert_eq!(session.typed(), &vec!['q']);
    session.advance(InputEvent::CharacterTyped('a'), T0 + 10);
    assert_eq!(session.state(), State::Finished);
    let action = session.advance(InputEvent::CharacterTyped('x'), T0 + 20);
    assert_eq!(action, LoopAction::Continue);
    let action = session.advance(InputEvent::BackspacePressed, T0 + 30);
    assert_eq!(action, LoopAction::Continue);
    let action = session.advance(InputEvent::NoEvent, T0 + 40);
    assert_eq!(action, LoopAction::Continue);
    let action = session.advance(InputEvent::CharacterTyped('q'), T0 + 50);
    assert_eq!(action, LoopAction::Exit(Outcome::Completed));
    assert_eq!(session.typed(), &vec!['q', 'a']);
    assert_eq!(session.end_instant(), Some(T0 + 10));
    assert!(session.final_wpm().is_some());
}

#[test]
fn run_lasting_half_a_second_has_a_sample() {
    let mut session = TestSession::new(&"a".repeat(100), 15, T0);
    session.advance(InputEvent::NoEvent, T0 + 50);
    session.advance(InputEvent::NoEvent, T0 + 450);
    session.advance(InputEvent::CharacterTyped('a'), T0 + 500);
    assert_eq!(session.samples().len(), 1);
    assert_eq!(session.samples()[0].elapsed_millis, 0);
    assert_eq!(session.samples()[0].wpm_milli, 12_000);
}

#[test]
fn fast_completion_leaves_no_sample() {
    let mut session = TestSession::new("ab", 15, T0);
    session.advance(InputEvent::CharacterTyped('a'), T0 + 10);
    session.advance(InputEvent::CharacterTyped('b'), T0 + 60);
    session.advance(InputEvent::NoEvent, T0 + 5_000);
    assert_eq!(session.state(), State::Finished);
    assert!(session.samples().is_empty());
}

#[test]
fn polled_run_keeps_the_invariants() {
    let text = "the quick brown fox";
    let mut session = TestSession::new(text, 3, T0);
    let mut now = T0;
    let mut keys = text.chars().cycle();
    let mut turn = 0u64;
    while session.state() == State::Typing {
        now += 50;
        turn += 1;
        let event = if turn % 7 == 0 {
            InputEvent::BackspacePressed
        } else if turn % 3 == 0 {
            InputEvent::CharacterTyped(keys.next().unwrap())
        } else {
            InputEvent::NoEvent
        };
        let start_before = session.start_instant();
        let samples_before = session.samples().clone();
        assert_eq!(session.advance(event, now), LoopAction::Continue);
        assert!(session.typed().len() <= session.target().len());
        if start_before.is_some() {
            assert_eq!(session.start_instant(), start_before);
        }
        assert_eq!(&session.samples()[..samples_before.len()], &samples_before[..]);
        assert!(turn < 1_000);
    }
    let start = session.start_instant().unwrap();
    let end = session.end_instant().unwrap();
    assert!(start <= end);
    assert_eq!(end, now);
    assert!(!session.samples().is_empty());
    for pair in session.samples().windows(2) {
        assert!(pair[0].elapsed_millis + 500 <= pair[1].elapsed_millis);
    }
}
