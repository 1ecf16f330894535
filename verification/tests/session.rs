use ri::editor::{Editor, Mode};
use ri::event::{Event, KeyCode, KeyEvent, KeyEventKind, KeyModifiers};
use ri::screen::Draw;
use ri::session::{
    enter, exit_code, leave, Action, Outcome, Phase, RiError, TerminalOp, TerminalProperty,
    FRAMES_PER_SECOND, FRAME_NANOS,
};
use ri::RiApp;

fn press(c: char) -> Event {
    Event::Key(KeyEvent::new(KeyCode::Char(c), KeyModifiers::none()))
}

fn quit_chord() -> Event {
    Event::Key(KeyEvent::new(KeyCode::Char('c'), KeyModifiers::control()))
}

fn enter_ops() -> [TerminalOp; 4] {
    [
        TerminalOp::Acquire(TerminalProperty::AlternateScreen),
        TerminalOp::Acquire(TerminalProperty::LineWrapOff),
        TerminalOp::Acquire(TerminalProperty::CursorHidden),
        TerminalOp::Acquire(TerminalProperty::RawMode),
    ]
}

fn leave_ops() -> [TerminalOp; 4] {
    [
        TerminalOp::Release(TerminalProperty::RawMode),
        TerminalOp::Release(TerminalProperty::CursorHidden),
        TerminalOp::Release(TerminalProperty::LineWrapOff),
        TerminalOp::Release(TerminalProperty::AlternateScreen),
    ]
}

fn app_in(phase: Phase) -> RiApp {
    let mut app = RiApp::new();
    app.phase = phase;
    app
}

/// Starts the session and takes the four properties.
fn entered() -> RiApp {
    let mut app = RiApp::new();
    for op in enter_ops() {
        assert_eq!(app.run(Outcome::Done), Action::Apply(op));
    }
    app
}

/// Answers each request for a property with `outcome` and returns the
/// requests, up to and without the exit.
fn leave_with(app: &mut RiApp, first: Action, outcome: Outcome) -> (Vec<Action>, Action) {
    let mut asked = Vec::new();
    let mut action = first;
    while !matches!(action, Action::Exit(_)) {
        asked.push(action);
        action = app.run(outcome);
        assert!(asked.len() <= 4);
    }
    (asked, action)
}

fn all_released() -> Vec<Action> {
    leave_ops().into_iter().map(Action::Apply).collect()
}

#[test]
fn new_app_has_not_started() {
    let app = RiApp::new();
    assert_eq!((app.cols, app.rows), (0, 0));
    assert!(!app.quit);
    assert_eq!(app.editor, Editor::new());
    assert_eq!(app.phase, Phase::Idle);
    assert_eq!(app.fault, None);
    assert_eq!(app.result(), Ok(()));
}

#[test]
fn enter_takes_the_four_properties() {
    assert_eq!(enter(), enter_ops().to_vec());
}

#[test]
fn leave_gives_them_back_in_reverse_order() {
    assert_eq!(leave(), leave_ops().to_vec());
    let mut undone: Vec<TerminalOp> = Vec::new();
    for op in enter().into_iter().rev() {
        match op {
            TerminalOp::Acquire(property) => undone.push(TerminalOp::Release(property)),
            TerminalOp::Release(property) => undone.push(TerminalOp::Acquire(property)),
        }
    }
    assert_eq!(leave(), undone);
}

#[test]
fn exit_codes() {
    assert_eq!(exit_code(&Ok(())), 0);
    assert_eq!(exit_code(&Err(RiError::TerminalError)), 1);
    assert_eq!(exit_code(&Err(RiError::IoError)), 1);
}

#[test]
fn frame_rate_is_sixty() {
    assert_eq!(FRAMES_PER_SECOND, 60);
    assert_eq!(FRAME_NANOS, 16_666_666);
}

#[test]
fn quit_chord_sets_the_quit_flag_in_every_mode() {
    for mode in [Mode::Normal, Mode::Insert, Mode::Select, Mode::Command] {
        let mut app = RiApp::new();
        app.editor.mode = mode;
        app.editor.cmd_buf = String::from("wq");
        let before = app.editor.clone();
        app.poll_events(Some(quit_chord()));
        assert!(app.quit);
        assert_eq!(app.editor, before);
    }
}

#[test]
fn quit_chord_held_down_sets_the_quit_flag() {
    let mut app = RiApp::new();
    let mut chord = KeyEvent::new(KeyCode::Char('c'), KeyModifiers::control());
    chord.kind = KeyEventKind::Repeat;
    app.poll_events(Some(Event::Key(chord)));
    assert!(app.quit);
}

#[test]
fn quit_chord_takes_control_and_nothing_else() {
    let mut app = RiApp::new();
    app.editor.mode = Mode::Command;
    let mut held = KeyModifiers::control();
    held.shift = true;
    app.poll_events(Some(Event::Key(KeyEvent::new(KeyCode::Char('c'), held))));
    assert!(!app.quit);
    assert_eq!(app.editor.cmd_buf, "c");
    app.poll_events(Some(press('c')));
    assert!(!app.quit);
    assert_eq!(app.editor.cmd_buf, "cc");
    app.poll_events(Some(Event::Key(KeyEvent::new(KeyCode::Char('C'), KeyModifiers::control()))));
    assert!(!app.quit);
    assert_eq!(app.editor.cmd_buf, "ccC");
    app.poll_events(Some(Event::Key(KeyEvent::new(KeyCode::Esc, KeyModifiers::control()))));
    assert!(!app.quit);
    assert_eq!(app.editor.mode, Mode::Normal);
}

#[test]
fn key_releases_are_not_consumed() {
    let mut app = RiApp::new();
    let mut released = KeyEvent::new(KeyCode::Char(':'), KeyModifiers::none());
    released.kind = KeyEventKind::Release;
    app.poll_events(Some(Event::Key(released)));
    assert_eq!(app.editor.mode, Mode::Normal);
    let mut released = KeyEvent::new(KeyCode::Char('c'), KeyModifiers::control());
    released.kind = KeyEventKind::Release;
    app.poll_events(Some(Event::Key(released)));
    assert!(!app.quit);
    assert_eq!(app, RiApp::new());
}

#[test]
fn other_events_and_no_event_do_nothing() {
    let mut app = RiApp::new();
    app.poll_events(None);
    app.poll_events(Some(Event::Resize(120, 40)));
    app.poll_events(Some(Event::Other));
    assert_eq!(app, RiApp::new());
}

#[test]
fn key_presses_reach_the_editor() {
    let mut app = RiApp::new();
    app.poll_events(Some(press(':')));
    app.poll_events(Some(press('w')));
    assert_eq!(app.editor.mode, Mode::Command);
    assert_eq!(app.editor.cmd_buf, "w");
    assert!(!app.quit);
}

#[test]
fn a_clean_session_from_start_to_exit() {
    let mut app = RiApp::new();
    assert_eq!(
        app.run(Outcome::Done),
        Action::Apply(TerminalOp::Acquire(TerminalProperty::AlternateScreen))
    );
    assert_eq!(app.phase, Phase::Entering { taken: 0 });
    assert_eq!(
        app.run(Outcome::Done),
        Action::Apply(TerminalOp::Acquire(TerminalProperty::LineWrapOff))
    );
    assert_eq!(app.phase, Phase::Entering { taken: 1 });
    assert_eq!(
        app.run(Outcome::Done),
        Action::Apply(TerminalOp::Acquire(TerminalProperty::CursorHidden))
    );
    assert_eq!(
        app.run(Outcome::Done),
        Action::Apply(TerminalOp::Acquire(TerminalProperty::RawMode))
    );
    assert_eq!(app.phase, Phase::Entering { taken: 3 });
    assert_eq!(app.run(Outcome::Done), Action::Poll { timeout_nanos: 0 });
    assert_eq!(app.phase, Phase::Polling);

    // first tick: `:` is typed
    assert_eq!(app.run(Outcome::Input(Some(press(':')))), Action::Measure);
    assert_eq!(app.editor.mode, Mode::Command);
    let mut expected = RiApp::new();
    expected.editor.mode = Mode::Command;
    let frame = expected.refresh(80, 24);
    assert_eq!(app.run(Outcome::Size { cols: 80, rows: 24 }), Action::Draw(frame));
    assert_eq!((app.cols, app.rows), (80, 24));
    assert_eq!(app.run(Outcome::Done), Action::Flush);
    assert_eq!(app.run(Outcome::Done), Action::Sleep { nanos: 16_666_666 });
    assert_eq!(app.run(Outcome::Done), Action::Poll { timeout_nanos: 0 });

    // second tick: nothing is typed, the terminal was resized
    assert_eq!(app.run(Outcome::Input(None)), Action::Measure);
    match app.run(Outcome::Size { cols: 100, rows: 30 }) {
        Action::Draw(frame) => {
            assert_eq!(frame[8], Draw::MoveTo { col: 0, row: 28 });
            assert_eq!(frame[14], Draw::MoveTo { col: 0, row: 29 });
        }
        other => panic!("not a frame: {:?}", other),
    }
    assert_eq!(app.run(Outcome::Done), Action::Flush);
    assert_eq!(app.run(Outcome::Done), Action::Sleep { nanos: 16_666_666 });
    assert_eq!(app.run(Outcome::Done), Action::Poll { timeout_nanos: 0 });

    // third tick: the quit chord; the tick is finished before the session ends
    assert_eq!(app.run(Outcome::Input(Some(quit_chord()))), Action::Measure);
    assert!(app.quit);
    assert!(matches!(app.run(Outcome::Size { cols: 100, rows: 30 }), Action::Draw(_)));
    assert_eq!(app.run(Outcome::Done), Action::Flush);
    assert_eq!(app.run(Outcome::Done), Action::Sleep { nanos: 16_666_666 });
    assert_eq!(
        app.run(Outcome::Done),
        Action::Apply(TerminalOp::Release(TerminalProperty::RawMode))
    );
    assert_eq!(app.phase, Phase::Leaving { given_back: 0 });
    assert_eq!(
        app.run(Outcome::Done),
        Action::Apply(TerminalOp::Release(TerminalProperty::CursorHidden))
    );
    assert_eq!(
        app.run(Outcome::Done),
        Action::Apply(TerminalOp::Release(TerminalProperty::LineWrapOff))
    );
    assert_eq!(
        app.run(Outcome::Done),
        Action::Apply(TerminalOp::Release(TerminalProperty::AlternateScreen))
    );
    assert_eq!(app.phase, Phase::Leaving { given_back: 3 });
    assert_eq!(app.run(Outcome::Done), Action::Exit(Ok(())));
    assert_eq!(app.phase, Phase::Finished);
    assert_eq!(app.fault, None);
    assert_eq!(app.run(Outcome::Done), Action::Exit(Ok(())));
    assert_eq!(app.run(Outcome::Failed), Action::Exit(Ok(())));
}

#[test]
fn the_first_call_starts_the_session_whatever_it_is_given() {
    for outcome in [
        Outcome::Done,
        Outcome::Failed,
        Outcome::Input(None),
        Outcome::Size { cols: 1, rows: 1 },
    ] {
        let mut app = RiApp::new();
        assert_eq!(app.run(outcome), Action::Apply(enter_ops()[0]));
        assert_eq!(app.phase, Phase::Entering { taken: 0 });
        assert_eq!(app.fault, None);
        assert_eq!((app.cols, app.rows), (0, 0));
    }
}

#[test]
fn a_quit_flag_set_before_the_start_skips_the_loop() {
    let mut app = RiApp::new();
    app.quit = true;
    for op in enter_ops() {
        assert_eq!(app.run(Outcome::Done), Action::Apply(op));
    }
    let first = app.run(Outcome::Done);
    let (asked, exit) = leave_with(&mut app, first, Outcome::Done);
    assert_eq!(asked, all_released());
    assert_eq!(exit, Action::Exit(Ok(())));
}

#[test]
fn a_failure_gives_the_terminal_back_and_exits_with_the_error() {
    let cases = [
        (Phase::Entering { taken: 0 }, RiError::TerminalError),
        (Phase::Entering { taken: 2 }, RiError::TerminalError),
        (Phase::Entering { taken: 3 }, RiError::TerminalError),
        (Phase::Polling, RiError::IoError),
        (Phase::Measuring, RiError::TerminalError),
        (Phase::Drawing, RiError::TerminalError),
        (Phase::Flushing, RiError::IoError),
        (Phase::Sleeping, RiError::IoError),
    ];
    for (phase, error) in cases {
        let mut app = app_in(phase);
        let first = app.run(Outcome::Failed);
        assert_eq!(app.phase, Phase::Leaving { given_back: 0 });
        assert_eq!(app.fault, Some(error));
        assert_eq!(app.result(), Err(error));
        let (asked, exit) = leave_with(&mut app, first, Outcome::Done);
        assert_eq!(asked, all_released());
        assert_eq!(exit, Action::Exit(Err(error)));
        assert_eq!(app.phase, Phase::Finished);
        assert_eq!(exit_code(&app.result()), 1);
    }
}

#[test]
fn a_failure_while_entering_stops_entering() {
    let mut app = RiApp::new();
    assert_eq!(app.run(Outcome::Done), Action::Apply(enter_ops()[0]));
    assert_eq!(app.run(Outcome::Done), Action::Apply(enter_ops()[1]));
    let first = app.run(Outcome::Failed);
    let (asked, exit) = leave_with(&mut app, first, Outcome::Done);
    assert_eq!(asked, all_released());
    assert_eq!(exit, Action::Exit(Err(RiError::TerminalError)));
}

#[test]
fn every_property_is_asked_back_even_if_giving_back_fails() {
    let mut app = entered();
    app.quit = true;
    let first = app.run(Outcome::Done);
    assert_eq!(first, Action::Apply(leave_ops()[0]));
    let (asked, exit) = leave_with(&mut app, first, Outcome::Failed);
    assert_eq!(asked, all_released());
    assert_eq!(exit, Action::Exit(Err(RiError::TerminalError)));
    assert_eq!(app.fault, Some(RiError::TerminalError));
    assert_eq!(app.phase, Phase::Finished);
}

#[test]
fn one_property_that_cannot_be_given_back_makes_a_terminal_error() {
    let mut app = entered();
    app.quit = true;
    assert_eq!(app.run(Outcome::Done), Action::Apply(leave_ops()[0]));
    assert_eq!(app.run(Outcome::Done), Action::Apply(leave_ops()[1]));
    assert_eq!(app.fault, None);
    assert_eq!(app.run(Outcome::Failed), Action::Apply(leave_ops()[2]));
    assert_eq!(app.fault, Some(RiError::TerminalError));
    assert_eq!(app.run(Outcome::Done), Action::Apply(leave_ops()[3]));
    assert_eq!(app.run(Outcome::Done), Action::Exit(Err(RiError::TerminalError)));
}

#[test]
fn the_first_error_is_the_one_reported() {
    let mut app = app_in(Phase::Flushing);
    let first = app.run(Outcome::Failed);
    let (asked, exit) = leave_with(&mut app, first, Outcome::Failed);
    assert_eq!(asked, all_released());
    assert_eq!(exit, Action::Exit(Err(RiError::IoError)));
    assert_eq!(app.fault, Some(RiError::IoError));
}

#[test]
fn an_answer_to_another_request_is_fatal() {
    let cases = [
        (Phase::Entering { taken: 1 }, Outcome::Input(None), RiError::TerminalError),
        (Phase::Polling, Outcome::Done, RiError::IoError),
        (Phase::Polling, Outcome::Size { cols: 80, rows: 24 }, RiError::IoError),
        (Phase::Measuring, Outcome::Done, RiError::TerminalError),
        (Phase::Drawing, Outcome::Input(Some(press('x'))), RiError::TerminalError),
        (Phase::Flushing, Outcome::Size { cols: 80, rows: 24 }, RiError::IoError),
        (Phase::Sleeping, Outcome::Input(None), RiError::IoError),
    ];
    for (phase, outcome, error) in cases {
        let mut app = app_in(phase);
        assert_eq!(app.run(outcome), Action::Apply(leave_ops()[0]));
        assert_eq!(app.phase, Phase::Leaving { given_back: 0 });
        assert_eq!(app.fault, Some(error));
        assert_eq!(app.editor, Editor::new());
        assert_eq!((app.cols, app.rows), (0, 0));
    }
}

#[test]
fn a_phase_past_the_last_property_moves_on() {
    let mut app = app_in(Phase::Entering { taken: 200 });
    assert_eq!(app.run(Outcome::Done), Action::Poll { timeout_nanos: 0 });
    let mut app = app_in(Phase::Entering { taken: 255 });
    assert_eq!(app.run(Outcome::Done), Action::Poll { timeout_nanos: 0 });
    let mut app = app_in(Phase::Leaving { given_back: 255 });
    assert_eq!(app.run(Outcome::Done), Action::Exit(Ok(())));
    assert_eq!(app.phase, Phase::Finished);
}

#[test]
fn at_most_one_event_is_handled_per_tick() {
    let mut app = app_in(Phase::Polling);
    assert_eq!(app.run(Outcome::Input(Some(press(':')))), Action::Measure);
    assert_eq!(app.phase, Phase::Measuring);
    assert_eq!(app.editor.mode, Mode::Command);
    assert_eq!(app.editor.cmd_buf, "");
}
