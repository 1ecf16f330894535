//! The terminal session: the four properties that the application takes
//! from the terminal and gives back, the phases of its life, and the
//! vocabulary in which it talks to whoever owns the terminal.

use crate::event::Event;
use crate::screen::{views, Draw, DrawView};
use vstd::prelude::*;

verus! {

/// One of the four properties of the terminal that the application holds
/// while it runs.
#[derive(Clone, Copy, Debug, PartialEq, Eq, Structural)]
pub enum TerminalProperty {
    /// The alternate screen is shown; the shell's screen is kept beneath
    /// it.
    AlternateScreen,
    /// Lines that reach the right edge do not wrap.
    LineWrapOff,
    /// The terminal's own cursor is hidden.
    CursorHidden,
    /// Input arrives raw: unbuffered, unedited, and with control
    /// characters as ordinary keys.
    RawMode,
}

/// Taking or giving back one terminal property.
#[derive(Clone, Copy, Debug, PartialEq, Eq, Structural)]
pub enum TerminalOp {
    Acquire(TerminalProperty),
    Release(TerminalProperty),
}

impl TerminalOp {
    /// The operation that reverses this one.
    pub open spec fn undo(self) -> TerminalOp {
        match self {
            TerminalOp::Acquire(property) => TerminalOp::Release(property),
            TerminalOp::Release(property) => TerminalOp::Acquire(property),
        }
    }
}

/// Entering the session: the four properties, taken in this order.
pub open spec fn enter_ops() -> Seq<TerminalOp> {
    seq![
        TerminalOp::Acquire(TerminalProperty::AlternateScreen),
        TerminalOp::Acquire(TerminalProperty::LineWrapOff),
        TerminalOp::Acquire(TerminalProperty::CursorHidden),
        TerminalOp::Acquire(TerminalProperty::RawMode),
    ]
}

/// Leaving the session: the four properties, given back in this order.
pub open spec fn leave_ops() -> Seq<TerminalOp> {
    seq![
        TerminalOp::Release(TerminalProperty::RawMode),
        TerminalOp::Release(TerminalProperty::CursorHidden),
        TerminalOp::Release(TerminalProperty::LineWrapOff),
        TerminalOp::Release(TerminalProperty::AlternateScreen),
    ]
}

/// The operations that put the terminal into the application's exclusive
/// mode.
pub fn enter() -> (ops: Vec<TerminalOp>)
    ensures
        ops@ == enter_ops(),
{
    let mut ops: Vec<TerminalOp> = Vec::new();
    ops.push(TerminalOp::Acquire(TerminalProperty::AlternateScreen));
    ops.push(TerminalOp::Acquire(TerminalProperty::LineWrapOff));
    ops.push(TerminalOp::Acquire(TerminalProperty::CursorHidden));
    ops.push(TerminalOp::Acquire(TerminalProperty::RawMode));
    assert(ops@ =~= enter_ops());
    ops
}

/// The operations that give the terminal back as it was.
pub fn leave() -> (ops: Vec<TerminalOp>)
    ensures
        ops@ == leave_ops(),
{
    let mut ops: Vec<TerminalOp> = Vec::new();
    ops.push(TerminalOp::Release(TerminalProperty::RawMode));
    ops.push(TerminalOp::Release(TerminalProperty::CursorHidden));
    ops.push(TerminalOp::Release(TerminalProperty::LineWrapOff));
    ops.push(TerminalOp::Release(TerminalProperty::AlternateScreen));
    assert(ops@ =~= leave_ops());
    ops
}

/// Leaving reverses entering: it undoes each of the four operations, the
/// last one first, so each of the four properties is taken on the way in
/// and given back on the way out.
pub proof fn lemma_leave_reverses_enter()
    ensures
        leave_ops().len() == enter_ops().len(),
        forall|i: int|
            0 <= i < enter_ops().len() ==> #[trigger] leave_ops()[i] == enter_ops()[
                enter_ops().len() - 1 - i
            ].undo(),
        forall|property: TerminalProperty| #[trigger]
            enter_ops().contains(TerminalOp::Acquire(property)),
        forall|property: TerminalProperty| #[trigger]
            leave_ops().contains(TerminalOp::Release(property)),
{
    assert forall|property: TerminalProperty| #[trigger]
        enter_ops().contains(TerminalOp::Acquire(property)) by {
        match property {
            TerminalProperty::AlternateScreen => {
                assert(enter_ops()[0] == TerminalOp::Acquire(property));
            },
            TerminalProperty::LineWrapOff => {
                assert(enter_ops()[1] == TerminalOp::Acquire(property));
            },
            TerminalProperty::CursorHidden => {
                assert(enter_ops()[2] == TerminalOp::Acquire(property));
            },
            TerminalProperty::RawMode => {
                assert(enter_ops()[3] == TerminalOp::Acquire(property));
            },
        }
    }
    assert forall|property: TerminalProperty| #[trigger]
        leave_ops().contains(TerminalOp::Release(property)) by {
        match property {
            TerminalProperty::AlternateScreen => {
                assert(leave_ops()[3] == TerminalOp::Release(property));
            },
            TerminalProperty::LineWrapOff => {
                assert(leave_ops()[2] == TerminalOp::Release(property));
            },
            TerminalProperty::CursorHidden => {
                assert(leave_ops()[1] == TerminalOp::Release(property));
            },
            TerminalProperty::RawMode => {
                assert(leave_ops()[0] == TerminalOp::Release(property));
            },
        }
    }
}

/// Why a session ended early. Either is fatal where it happens.
#[derive(Clone, Copy, Debug, PartialEq, Eq, Structural)]
pub enum RiError {
    /// The terminal could not be controlled: a size query, an escape
    /// sequence, or a change of raw mode or of the alternate screen failed.
    TerminalError,
    /// Reading input, or writing or flushing output, failed.
    IoError,
}

/// How a session ended.
pub type RiResult<T = ()> = Result<T, RiError>;

/// The exit code of the process for the way the session ended: 0 after a
/// clean quit, 1 after a fatal error.
pub fn exit_code(result: &RiResult) -> (code: u8)
    ensures
        code == (if result is Ok { 0u8 } else { 1u8 }),
{
    match result {
        Ok(_) => 0,
        Err(_) => 1,
    }
}

/// How many frames the application aims to draw per second.
pub const FRAMES_PER_SECOND: u64 = 60;

/// How long the poll of a tick waits for input, in nanoseconds: not at
/// all. The poll returns at once, whether or not input is there.
pub const POLL_TIMEOUT_NANOS: u64 = 0;

/// The time from one frame to the next, in nanoseconds. Every tick ends
/// with a sleep of this length, however long the tick's own work took.
pub const FRAME_NANOS: u64 = 1_000_000_000 / FRAMES_PER_SECOND;

/// Where the application is in its life: which request it is waiting on.
#[derive(Clone, Copy, Debug, PartialEq, Eq, Structural)]
pub enum Phase {
    /// Nothing was asked for yet.
    Idle,
    /// Waiting for a terminal property to be taken, after `taken` of them
    /// were.
    Entering { taken: u8 },
    /// Waiting for the input poll of this tick.
    Polling,
    /// Waiting for the terminal's size.
    Measuring,
    /// Waiting for the frame to be written.
    Drawing,
    /// Waiting for the output to be flushed.
    Flushing,
    /// Waiting for the rest of the tick to pass.
    Sleeping,
    /// Waiting for a terminal property to be given back, after `given_back`
    /// of them were, or could not be.
    Leaving { given_back: u8 },
    /// Over.
    Finished,
}

impl Phase {
    /// The kind of error that a failure in this phase is.
    pub open spec fn fault(self) -> RiError {
        match self {
            Phase::Polling | Phase::Flushing | Phase::Sleeping => RiError::IoError,
            _ => RiError::TerminalError,
        }
    }
}

/// What came of the last request.
#[derive(Clone, Copy, Debug, PartialEq, Eq, Structural)]
pub enum Outcome {
    /// It was carried out.
    Done,
    /// The poll found this event, or none.
    Input(Option<Event>),
    /// The terminal has this many columns and rows.
    Size { cols: u16, rows: u16 },
    /// It failed.
    Failed,
}

/// What the application asks for next.
#[derive(Debug, PartialEq, Eq)]
pub enum Action {
    /// Take or give back this terminal property. Answer `Done` or `Failed`.
    Apply(TerminalOp),
    /// Wait at most this many nanoseconds for input, and read one event if
    /// one is there. Answer `Input` or `Failed`.
    Poll { timeout_nanos: u64 },
    /// Query the terminal's size. Answer `Size` or `Failed`.
    Measure,
    /// Write this frame. Answer `Done` or `Failed`.
    Draw(Vec<Draw>),
    /// Flush the output. Answer `Done` or `Failed`.
    Flush,
    /// Sleep for this many nanoseconds. Answer `Done`.
    Sleep { nanos: u64 },
    /// Stop: the session ended this way.
    Exit(RiResult),
}

/// A request as a mathematical value.
pub ghost enum ActionView {
    Apply(TerminalOp),
    Poll { timeout_nanos: u64 },
    Measure,
    Draw(Seq<DrawView>),
    Flush,
    Sleep { nanos: u64 },
    Exit(RiResult),
}

impl View for Action {
    type V = ActionView;

    open spec fn view(&self) -> ActionView {
        match *self {
            Action::Apply(op) => ActionView::Apply(op),
            Action::Poll { timeout_nanos } => ActionView::Poll { timeout_nanos },
            Action::Measure => ActionView::Measure,
            Action::Draw(frame) => ActionView::Draw(views(frame@)),
            Action::Flush => ActionView::Flush,
            Action::Sleep { nanos } => ActionView::Sleep { nanos },
            Action::Exit(result) => ActionView::Exit(result),
        }
    }
}

impl ActionView {
    /// Whether this asks for a terminal property to be taken.
    pub open spec fn is_acquire(self) -> bool {
        self matches ActionView::Apply(TerminalOp::Acquire(_))
    }

    /// Whether this asks for a terminal property to be given back.
    pub open spec fn is_release(self) -> bool {
        self matches ActionView::Apply(TerminalOp::Release(_))
    }
}

} // verus!
