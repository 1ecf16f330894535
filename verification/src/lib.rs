//! The core of a modal, terminal-resident text editor: the editor's
//! keystroke state machine, the frame it paints and the application's
//! life cycle, all as plain values with proved contracts.
//!
//! The application owns no terminal. It says what it wants done next (an
//! [`session::Action`]) and is told what came of it (an
//! [`session::Outcome`]); whoever owns the terminal runs that loop.

pub mod editor;
pub mod event;
pub mod screen;
pub mod session;
pub mod style;
pub mod text;

use crate::editor::{Editor, EditorView, Mode};
use crate::event::{Event, KeyCode, KeyEvent, KeyEventKind};
use crate::screen::{
    cursor_stays_inside, emit, frame_view, lemma_frame_cursor_stays_inside, lemma_status_bar_rows,
    paint_welcome_line, status_bar_view, views, Draw, DrawView,
};
use crate::session::{
    enter, enter_ops, leave, leave_ops, Action, ActionView, Outcome, Phase, RiError, RiResult,
    FRAME_NANOS, POLL_TIMEOUT_NANOS,
};
use crate::style::Color;
use crate::text::{cow_to_string, repeat_char};
use vstd::prelude::*;

verus! {

/// The application: the viewport as last sampled, the quit flag, the
/// editor, and where the session stands.
#[derive(Debug, PartialEq, Eq)]
pub struct RiApp {
    /// Number of rows of the terminal, as sampled for the last frame.
    pub rows: u16,
    /// Number of columns of the terminal, as sampled for the last frame.
    pub cols: u16,
    /// Whether the session ends when the current tick is over.
    pub quit: bool,
    /// The editor.
    pub editor: Editor,
    /// The request that the application is waiting on.
    pub phase: Phase,
    /// The first fatal error of the session, if there was one.
    pub fault: Option<RiError>,
}

/// An application as a mathematical value.
pub ghost struct RiAppView {
    pub rows: u16,
    pub cols: u16,
    pub quit: bool,
    pub editor: EditorView,
    pub phase: Phase,
    pub fault: Option<RiError>,
}

impl View for RiApp {
    type V = RiAppView;

    open spec fn view(&self) -> RiAppView {
        RiAppView {
            rows: self.rows,
            cols: self.cols,
            quit: self.quit,
            editor: self.editor@,
            phase: self.phase,
            fault: self.fault,
        }
    }
}

impl RiAppView {
    /// The application at start: no viewport sampled yet, not quitting, a
    /// fresh editor, nothing asked for, no error.
    pub open spec fn initial() -> RiAppView {
        RiAppView {
            rows: 0,
            cols: 0,
            quit: false,
            editor: EditorView::initial(),
            phase: Phase::Idle,
            fault: None,
        }
    }

    /// What the input of one tick does. The quit chord sets the quit flag
    /// and never reaches the editor; any other key press goes to the
    /// editor; a key release, any other event, and no event at all do
    /// nothing.
    pub open spec fn after_input(self, input: Option<Event>) -> RiAppView {
        match input {
            Some(Event::Key(key)) => if !key.is_press() {
                self
            } else if key.is_quit_chord() {
                RiAppView { quit: true, ..self }
            } else {
                RiAppView { editor: self.editor.after_key(key), ..self }
            },
            _ => self,
        }
    }

    /// The application with a freshly sampled viewport.
    pub open spec fn resized(self, cols: u16, rows: u16) -> RiAppView {
        RiAppView { cols, rows, ..self }
    }

    /// The status bar and command row for the editor and the viewport as
    /// they are.
    pub open spec fn status_bar(self) -> Seq<DrawView> {
        status_bar_view(self.editor, self.cols, self.rows)
    }

    /// The frame for the editor and the viewport as they are.
    pub open spec fn frame(self) -> Seq<DrawView> {
        frame_view(self.editor, self.cols, self.rows)
    }

    /// How the session ends if it ends now.
    pub open spec fn result(self) -> RiResult {
        match self.fault {
            Some(error) => Err(error),
            None => Ok(()),
        }
    }

    /// Entering the terminal, with `taken` properties taken so far: the
    /// next one is asked for, or, when all are taken, the first tick
    /// starts.
    pub open spec fn entering(self, taken: nat) -> (RiAppView, ActionView) {
        if taken < enter_ops().len() {
            (
                RiAppView { phase: Phase::Entering { taken: taken as u8 }, ..self },
                ActionView::Apply(enter_ops()[taken as int]),
            )
        } else {
            self.next_tick()
        }
    }

    /// The start of a tick: leave if the quit flag is set, poll without
    /// waiting otherwise.
    pub open spec fn next_tick(self) -> (RiAppView, ActionView) {
        if self.quit {
            self.leaving(0)
        } else {
            (
                RiAppView { phase: Phase::Polling, ..self },
                ActionView::Poll { timeout_nanos: POLL_TIMEOUT_NANOS },
            )
        }
    }

    /// Leaving the terminal, with `given_back` properties dealt with so
    /// far: the next one is asked back, or, when none is left, the session
    /// exits.
    pub open spec fn leaving(self, given_back: nat) -> (RiAppView, ActionView) {
        if given_back < leave_ops().len() {
            (
                RiAppView { phase: Phase::Leaving { given_back: given_back as u8 }, ..self },
                ActionView::Apply(leave_ops()[given_back as int]),
            )
        } else {
            (RiAppView { phase: Phase::Finished, ..self }, ActionView::Exit(self.result()))
        }
    }

    /// The application with a failure of the request waited on recorded:
    /// the first error of a session is the one that is kept.
    pub open spec fn failed(self) -> RiAppView {
        RiAppView {
            fault: Some(
                match self.fault {
                    Some(first) => first,
                    None => self.phase.fault(),
                },
            ),
            ..self
        }
    }

    /// One step of the application: from what came of the last request to
    /// the state after it and the next request.
    ///
    /// The session takes the four terminal properties one by one, then
    /// ticks (poll, handle the input, measure, draw, flush, sleep one
    /// frame's time) until the quit flag is set, then gives the four
    /// properties back one by one and exits. An outcome that is not the
    /// answer to the request waited on, `Failed` above all, is fatal: it is
    /// recorded and the session leaves at once. While leaving, a failure
    /// is recorded too, but each of the four properties is still asked
    /// back.
    pub open spec fn step(self, outcome: Outcome) -> (RiAppView, ActionView) {
        match (self.phase, outcome) {
            (Phase::Idle, _) => self.entering(0),
            (Phase::Entering { taken }, Outcome::Done) => self.entering(taken as nat + 1),
            (Phase::Polling, Outcome::Input(input)) => (
                RiAppView { phase: Phase::Measuring, ..self.after_input(input) },
                ActionView::Measure,
            ),
            (Phase::Measuring, Outcome::Size { cols, rows }) => (
                RiAppView { phase: Phase::Drawing, ..self.resized(cols, rows) },
                ActionView::Draw(self.resized(cols, rows).frame()),
            ),
            (Phase::Drawing, Outcome::Done) => (
                RiAppView { phase: Phase::Flushing, ..self },
                ActionView::Flush,
            ),
            (Phase::Flushing, Outcome::Done) => (
                RiAppView { phase: Phase::Sleeping, ..self },
                ActionView::Sleep { nanos: FRAME_NANOS },
            ),
            (Phase::Sleeping, Outcome::Done) => self.next_tick(),
            (Phase::Leaving { given_back }, Outcome::Done) => self.leaving(given_back as nat + 1),
            (Phase::Leaving { given_back }, _) => self.failed().leaving(given_back as nat + 1),
            (Phase::Finished, _) => (self, ActionView::Exit(self.result())),
            _ => self.failed().leaving(0),
        }
    }

    /// The application after a sequence of outcomes, one step for each.
    pub open spec fn after_outcomes(self, outcomes: Seq<Outcome>) -> RiAppView
        decreases outcomes.len(),
    {
        if outcomes.len() == 0 {
            self
        } else {
            self.after_outcomes(outcomes.drop_last()).step(outcomes.last()).0
        }
    }

    /// The requests that the application makes along a sequence of
    /// outcomes, one for each.
    pub open spec fn requests(self, outcomes: Seq<Outcome>) -> Seq<ActionView>
        decreases outcomes.len(),
    {
        if outcomes.len() == 0 {
            seq![]
        } else {
            self.requests(outcomes.drop_last()).push(
                self.after_outcomes(outcomes.drop_last()).step(outcomes.last()).1,
            )
        }
    }
}

impl RiApp {
    /// An application that has not started: no viewport sampled yet, not
    /// quitting, a fresh editor.
    pub fn new() -> (app: RiApp)
        ensures
            app@ == RiAppView::initial(),
    {
        RiApp {
            rows: 0,
            cols: 0,
            quit: false,
            editor: Editor::new(),
            phase: Phase::Idle,
            fault: None,
        }
    }

    /// Takes what came of the last request and says what to do next.
    ///
    /// Call it first with any outcome, carry out the action it returns,
    /// call it again with what came of that, and so on until it returns
    /// `Action::Exit`.
    pub fn run(&mut self, outcome: Outcome) -> (action: Action)
        ensures
            (final(self)@, action@) == old(self)@.step(outcome),
    {
        match (self.phase, outcome) {
            (Phase::Idle, _) => self.entering(0),
            (Phase::Entering { taken }, Outcome::Done) => self.entering(taken as usize + 1),
            (Phase::Polling, Outcome::Input(input)) => {
                self.poll_events(input);
                self.phase = Phase::Measuring;
                Action::Measure
            },
            (Phase::Measuring, Outcome::Size { cols, rows }) => {
                let frame = self.refresh(cols, rows);
                self.phase = Phase::Drawing;
                Action::Draw(frame)
            },
            (Phase::Drawing, Outcome::Done) => {
                self.phase = Phase::Flushing;
                Action::Flush
            },
            (Phase::Flushing, Outcome::Done) => {
                self.phase = Phase::Sleeping;
                Action::Sleep { nanos: FRAME_NANOS }
            },
            (Phase::Sleeping, Outcome::Done) => self.next_tick(),
            (Phase::Leaving { given_back }, Outcome::Done) => self.leaving(given_back as usize + 1),
            (Phase::Leaving { given_back }, _) => {
                self.fail();
                self.leaving(given_back as usize + 1)
            },
            (Phase::Finished, _) => Action::Exit(self.result()),
            _ => {
                self.fail();
                self.leaving(0)
            },
        }
    }

    /// Takes the viewport as just sampled and builds the frame for it: one
    /// synchronized update that clears the screen, paints the welcome text
    /// in the middle, and paints the status bar. What has no row in the
    /// viewport is left out.
    pub fn refresh(&mut self, cols: u16, rows: u16) -> (frame: Vec<Draw>)
        ensures
            final(self)@ == old(self)@.resized(cols, rows),
            views(frame@) == final(self)@.frame(),
            cols >= 2 ==> cursor_stays_inside(views(frame@), cols, rows),
    {
        self.cols = cols;
        self.rows = rows;
        let mut frame: Vec<Draw> = Vec::new();
        emit(&mut frame, Draw::BeginSynchronizedUpdate);
        emit(&mut frame, Draw::ClearAll);

        paint_welcome_line(
            &mut frame,
            cols,
            rows,
            rows / 2,
            Color::Rgb { r: 87, g: 130, b: 247 },
            "Ri - modern editor",
        );
        paint_welcome_line(
            &mut frame,
            cols,
            rows,
            rows / 2 + 1,
            Color::White,
            "Press CTRL + c to quit.",
        );

        let ghost painted = frame@;
        let mut bar = self.status_bar();
        let ghost bar_drawn = bar@;
        frame.append(&mut bar);
        assert(views(painted + bar_drawn) =~= views(painted) + views(bar_drawn));
        emit(&mut frame, Draw::EndSynchronizedUpdate);
        assert(views(frame@) =~= self@.frame());
        proof {
            if cols >= 2 {
                lemma_frame_cursor_stays_inside(self@.editor, cols, rows);
            }
        }
        frame
    }

    /// Handles the input of one tick: the event that the poll found, or
    /// none. The quit chord (Control with `c`) sets the quit flag and is
    /// kept from the editor; any other key press is handed to the editor.
    pub fn poll_events(&mut self, input: Option<Event>)
        ensures
            final(self)@ == old(self)@.after_input(input),
    {
        match input {
            Some(Event::Key(key)) => {
                if is_release(&key) {
                } else if is_quit_chord(&key) {
                    self.quit = true;
                } else {
                    self.editor.handle_key_event(key);
                }
            },
            _ => {},
        }
    }

    /// Builds the status bar for the viewport as last sampled: on the
    /// second-to-last row the bar with the mode and the status message, and
    /// in command mode the command row on the last row. With fewer than
    /// two rows it builds nothing.
    pub fn status_bar(&self) -> (bar: Vec<Draw>)
        ensures
            views(bar@) == self@.status_bar(),
    {
        let mut bar: Vec<Draw> = Vec::new();
        if self.rows < 2 {
            assert(views(bar@) =~= self@.status_bar());
            return bar;
        }
        // The bar itself: the whole row in the bar's background.
        emit(&mut bar, Draw::MoveTo { col: 0, row: self.rows - 2 });
        emit(&mut bar, Draw::SetBackgroundColor(self.editor.theme.status_bar_bg));
        emit(&mut bar, Draw::Print(repeat_char(' ', self.cols as usize)));
        // The mode, one column in.
        emit(&mut bar, Draw::MoveTo { col: 1, row: self.rows - 2 });
        emit(&mut bar, Draw::Print(self.editor.mode.label().to_owned()));

        // The status message, three columns after the mode.
        match &self.editor.status_msg {
            Some(msg) => {
                emit(&mut bar, Draw::MoveRight(3));
                emit(&mut bar, Draw::Print(cow_to_string(msg)));
            },
            None => {},
        }

        // Back to the default background for whatever is drawn next.
        emit(&mut bar, Draw::SetBackgroundColor(self.editor.theme.default_bg));

        // The command row, below the bar.
        if self.editor.mode == Mode::Command {
            emit(&mut bar, Draw::MoveTo { col: 0, row: self.rows - 1 });
            emit(&mut bar, Draw::Print(":".to_owned()));
            emit(&mut bar, Draw::Print(self.editor.cmd_buf.clone()));
            emit(&mut bar, Draw::Print("\u{2588}".to_owned()));
        }
        assert(views(bar@) =~= self@.status_bar());
        bar
    }

    /// How the session ends if it ends now.
    pub fn result(&self) -> (result: RiResult)
        ensures
            result == self@.result(),
    {
        match self.fault {
            Some(error) => Err(error),
            None => Ok(()),
        }
    }

    /// Asks for the next terminal property, or starts the first tick.
    fn entering(&mut self, taken: usize) -> (action: Action)
        ensures
            (final(self)@, action@) == old(self)@.entering(taken as nat),
    {
        let ops = enter();
        if taken < ops.len() {
            self.phase = Phase::Entering { taken: taken as u8 };
            Action::Apply(ops[taken])
        } else {
            self.next_tick()
        }
    }

    /// Starts a tick, or leaves if the quit flag is set.
    fn next_tick(&mut self) -> (action: Action)
        ensures
            (final(self)@, action@) == old(self)@.next_tick(),
    {
        if self.quit {
            self.leaving(0)
        } else {
            self.phase = Phase::Polling;
            Action::Poll { timeout_nanos: POLL_TIMEOUT_NANOS }
        }
    }

    /// Asks the next terminal property back, or exits.
    fn leaving(&mut self, given_back: usize) -> (action: Action)
        ensures
            (final(self)@, action@) == old(self)@.leaving(given_back as nat),
    {
        let ops = leave();
        if given_back < ops.len() {
            self.phase = Phase::Leaving { given_back: given_back as u8 };
            Action::Apply(ops[given_back])
        } else {
            self.phase = Phase::Finished;
            Action::Exit(self.result())
        }
    }

    /// Records a failure of the request waited on, unless an earlier one
    /// is recorded.
    fn fail(&mut self)
        ensures
            final(self)@ == old(self)@.failed(),
    {
        if self.fault.is_none() {
            self.fault = Some(phase_fault(self.phase));
        }
    }
}

/// Whether the key came up.
fn is_release(key: &KeyEvent) -> (released: bool)
    ensures
        released == !key.is_press(),
{
    match key.kind {
        KeyEventKind::Release => true,
        _ => false,
    }
}

/// Whether the key is the quit chord.
fn is_quit_chord(key: &KeyEvent) -> (quit: bool)
    ensures
        quit == key.is_quit_chord(),
{
    let held = key.modifiers;
    let only_control = held.control && !held.shift && !held.alt && !held.super_key && !held.hyper
        && !held.meta;
    match key.code {
        KeyCode::Char(c) => c == 'c' && only_control,
        _ => false,
    }
}

/// The kind of error that a failure in this phase is.
fn phase_fault(phase: Phase) -> (error: RiError)
    ensures
        error == phase.fault(),
{
    match phase {
        Phase::Polling | Phase::Flushing | Phase::Sleeping => RiError::IoError,
        _ => RiError::TerminalError,
    }
}

/// The quit chord sets the quit flag in every mode and whatever the command
/// line holds. The key never reaches the editor: mode, command line and all
/// the rest stay as they were, and nothing is submitted.
pub proof fn lemma_quit_chord_sets_quit(app: RiAppView, chord: KeyEvent)
    requires
        chord.is_quit_chord(),
        chord.is_press(),
    ensures
        app.after_input(Some(Event::Key(chord))) == (RiAppView { quit: true, ..app }),
        app.after_input(Some(Event::Key(chord))).quit,
        app.after_input(Some(Event::Key(chord))).editor == app.editor,
{
}

/// Only the quit chord sets the quit flag, and nothing clears it: through
/// any step of the application a flag that is set stays set.
pub proof fn lemma_quit_is_kept(app: RiAppView, outcome: Outcome)
    ensures
        app.quit ==> app.step(outcome).0.quit,
        app.step(outcome).0.quit && !app.quit ==> app.phase == Phase::Polling && (exists|
            chord: KeyEvent,
        |
            chord.is_quit_chord() && chord.is_press() && outcome == Outcome::Input(
                Some(Event::Key(chord)),
            )),
{
    if app.step(outcome).0.quit && !app.quit {
        let chord = outcome->Input_0->Some_0->Key_0;
        assert(chord.is_quit_chord() && chord.is_press() && outcome == Outcome::Input(
            Some(Event::Key(chord)),
        ));
    }
}

/// A frame is built for the viewport sampled for it and for no other:
/// whatever size was sampled before leaves no trace in it. In a viewport of
/// at least two rows it puts the status bar on the second-to-last row of
/// the size just sampled.
pub proof fn lemma_frame_follows_the_sampled_viewport(
    app: RiAppView,
    stale_cols: u16,
    stale_rows: u16,
    cols: u16,
    rows: u16,
)
    ensures
        app.resized(stale_cols, stale_rows).resized(cols, rows) == app.resized(cols, rows),
        app.resized(cols, rows).frame() == frame_view(app.editor, cols, rows),
        rows >= 2 ==> app.resized(cols, rows).status_bar()[0] == (DrawView::MoveTo {
            col: 0,
            row: (rows - 2) as u16,
        }),
{
    if rows >= 2 {
        lemma_status_bar_rows(app.editor, cols, rows);
    }
}

/// A tick that begins with the quit flag set does not poll: the first of
/// the terminal's properties is asked back. One that begins without it
/// polls, and does not wait.
pub proof fn lemma_quit_ends_the_loop(app: RiAppView)
    requires
        app.phase == Phase::Sleeping,
    ensures
        app.quit ==> app.step(Outcome::Done) == (
            RiAppView { phase: Phase::Leaving { given_back: 0 }, ..app },
            ActionView::Apply(leave_ops()[0]),
        ),
        !app.quit ==> app.step(Outcome::Done) == (
            RiAppView { phase: Phase::Polling, ..app },
            ActionView::Poll { timeout_nanos: 0 },
        ),
{
}

/// A failure is fatal where it happens. After the start and before the
/// session leaves, a failed request is recorded as the session's error,
/// unless an earlier one is, and the next request asks the first of the
/// terminal's properties back. While the session leaves, a failed request
/// is recorded in the same way and the next property is asked back all the
/// same. An error, once recorded, is never lost or replaced.
pub proof fn lemma_failure_leads_out(app: RiAppView, outcome: Outcome)
    ensures
        outcome == Outcome::Failed && app.phase != Phase::Idle && app.phase != Phase::Finished
            ==> app.step(outcome).0.fault == Some(
            match app.fault {
                Some(first) => first,
                None => app.phase.fault(),
            },
        ),
        outcome == Outcome::Failed && app.phase != Phase::Idle && app.phase != Phase::Finished
            && !(app.phase is Leaving) ==> app.step(outcome) == (
            RiAppView { phase: Phase::Leaving { given_back: 0 }, ..app.failed() },
            ActionView::Apply(leave_ops()[0]),
        ),
        app.phase matches Phase::Leaving { given_back } ==> (given_back + 1 < leave_ops().len()
            ==> app.step(outcome).1 == ActionView::Apply(leave_ops()[given_back + 1])),
        app.step(outcome).1 is Exit <==> app.step(outcome).0.phase == Phase::Finished,
        app.step(outcome).1 is Exit ==> app.step(outcome).1 == ActionView::Exit(
            app.step(outcome).0.result(),
        ),
        app.fault is Some ==> app.step(outcome).0.fault == app.fault,
{
}

/// Whether the requests from position `at` on ask the terminal's four
/// properties back, one after the other, in the order of leaving.
pub open spec fn gives_back_all(requests: Seq<ActionView>, at: int) -> bool {
    &&& 0 <= at
    &&& at + leave_ops().len() <= requests.len()
    &&& requests[at] == ActionView::Apply(leave_ops()[0])
    &&& requests[at + 1] == ActionView::Apply(leave_ops()[1])
    &&& requests[at + 2] == ActionView::Apply(leave_ops()[2])
    &&& requests[at + 3] == ActionView::Apply(leave_ops()[3])
}

/// Whether a session that started afresh has left at position `at`: it
/// took the first property at the start, asked nothing back and did not
/// exit before `at`, asked all four properties back from `at` on, and has
/// done nothing but exit since.
spec fn left_at(requests: Seq<ActionView>, at: int) -> bool {
    &&& gives_back_all(requests, at)
    &&& 0 < at
    &&& at + 4 < requests.len()
    &&& requests[0] == ActionView::Apply(enter_ops()[0])
    &&& forall|i: int|
        0 <= i < at ==> !(#[trigger] requests[i]).is_release() && !(requests[i] is Exit)
    &&& forall|i: int| at + 4 <= i < requests.len() ==> #[trigger] requests[i] is Exit
}

/// What holds of the requests made so far in each phase of a session that
/// started afresh.
spec fn on_course(requests: Seq<ActionView>, phase: Phase) -> bool {
    let n = requests.len() as int;
    &&& forall|i: int|
        0 <= i < n && (#[trigger] requests[i]).is_acquire() ==> i < 4 && requests[i]
            == ActionView::Apply(enter_ops()[i])
    &&& match phase {
        Phase::Idle => n == 0,
        Phase::Entering { taken } => {
            &&& taken < 4
            &&& n == taken + 1
            &&& forall|i: int| 0 <= i < n ==> #[trigger] requests[i] == ActionView::Apply(enter_ops()[i])
        },
        Phase::Leaving { given_back } => {
            &&& given_back < 4
            &&& n >= given_back + 2
            &&& requests[0] == ActionView::Apply(enter_ops()[0])
            &&& forall|i: int|
                n - 1 - given_back <= i < n ==> #[trigger] requests[i] == ActionView::Apply(
                    leave_ops()[i - (n - 1 - given_back)],
                )
            &&& forall|i: int|
                0 <= i < n - 1 - given_back ==> !(#[trigger] requests[i]).is_release() && !(requests[i] is Exit)
        },
        Phase::Finished => exists|at: int| #[trigger] left_at(requests, at),
        _ => {
            &&& n > 0
            &&& requests[0] == ActionView::Apply(enter_ops()[0])
            &&& forall|i: int|
                0 <= i < n ==> !(#[trigger] requests[i]).is_release() && !(requests[i] is Exit)
        },
    }
}

/// A session that started afresh is on course after any outcomes.
proof fn lemma_session_stays_on_course(app: RiAppView, outcomes: Seq<Outcome>)
    requires
        app.phase == Phase::Idle,
    ensures
        app.requests(outcomes).len() == outcomes.len(),
        on_course(app.requests(outcomes), app.after_outcomes(outcomes).phase),
    decreases outcomes.len(),
{
    if outcomes.len() > 0 {
        let front = outcomes.drop_last();
        let before = app.after_outcomes(front);
        let asked = app.requests(front);
        let request = before.step(outcomes.last()).1;
        let after = before.step(outcomes.last()).0;
        let all = app.requests(outcomes);
        let n = asked.len() as int;
        lemma_session_stays_on_course(app, front);
        assert(all == asked.push(request));
        assert(forall|i: int| 0 <= i < n ==> all[i] == asked[i]);
        assert(all[n] == request);
        match before.phase {
            Phase::Leaving { given_back } => {
                if given_back + 1 >= 4 {
                    assert(left_at(all, n - 4));
                }
            },
            Phase::Finished => {
                let at = choose|at: int| #[trigger] left_at(asked, at);
                assert(left_at(all, at));
            },
            _ => {},
        }
    }
}

/// Whatever comes back from the terminal, a session that starts afresh
/// takes the terminal's properties at the start and at no other time, each
/// in its place in the order of entering; it asks all four back, in the
/// order of leaving, before it exits; it asks none back twice; and it is
/// over exactly when it has said so.
pub proof fn lemma_session_is_well_bracketed(app: RiAppView, outcomes: Seq<Outcome>)
    requires
        app.phase == Phase::Idle,
    ensures
        app.requests(outcomes).len() == outcomes.len(),
        outcomes.len() > 0 ==> app.requests(outcomes)[0] == ActionView::Apply(enter_ops()[0]),
        forall|i: int|
            0 <= i < outcomes.len() && (#[trigger] app.requests(outcomes)[i]).is_acquire() ==> i
                < enter_ops().len() && app.requests(outcomes)[i] == ActionView::Apply(
                enter_ops()[i],
            ),
        forall|i: int|
            0 <= i < outcomes.len() && #[trigger] app.requests(outcomes)[i] is Exit ==> exists|
                at: int,
            |
                at + leave_ops().len() <= i && #[trigger] gives_back_all(
                    app.requests(outcomes),
                    at,
                ),
        forall|i: int, j: int|
            0 <= i < j < outcomes.len() && (#[trigger] app.requests(outcomes)[i]).is_release()
                ==> (#[trigger] app.requests(outcomes)[j]) != app.requests(outcomes)[i],
        outcomes.len() > 0 ==> (app.after_outcomes(outcomes).phase == Phase::Finished
            <==> app.requests(outcomes).last() is Exit),
{
    lemma_session_stays_on_course(app, outcomes);
    let requests = app.requests(outcomes);
    let n = requests.len() as int;
    match app.after_outcomes(outcomes).phase {
        Phase::Finished => {
            let at = choose|at: int| #[trigger] left_at(requests, at);
            assert forall|i: int| 0 <= i < n && #[trigger] requests[i] is Exit implies exists|
                k: int,
            |
                k + leave_ops().len() <= i && #[trigger] gives_back_all(requests, k) by {
                assert(at + leave_ops().len() <= i && gives_back_all(requests, at));
            }
            assert forall|i: int, j: int|
                0 <= i < j < n && (#[trigger] requests[i]).is_release() implies (
            #[trigger] requests[j]) != requests[i] by {
                assert(at <= i < at + 4);
            }
        },
        _ => {},
    }
}

} // verus!
