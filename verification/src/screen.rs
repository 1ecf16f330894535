//! What a frame is made of: the drawing commands, the welcome text, the
//! status bar and the command row, and where on the screen each goes.

use crate::editor::{EditorView, Mode};
use crate::style::Color;
use vstd::prelude::*;

verus! {

/// One drawing command of a frame, carried out in order by whoever owns the
/// terminal.
#[derive(Debug, PartialEq, Eq)]
pub enum Draw {
    /// Start buffering: nothing drawn from here on shows until the update
    /// ends.
    BeginSynchronizedUpdate,
    /// Show at once everything drawn since the update began.
    EndSynchronizedUpdate,
    /// Clear the whole screen.
    ClearAll,
    /// Move the cursor to a column and a row, both counted from zero.
    MoveTo { col: u16, row: u16 },
    /// Move the cursor right by a number of columns.
    MoveRight(u16),
    /// Set the color of the text printed from here on.
    SetForegroundColor(Color),
    /// Set the background of the text printed from here on.
    SetBackgroundColor(Color),
    /// Print text at the cursor.
    Print(String),
}

/// A drawing command as a mathematical value.
pub ghost enum DrawView {
    BeginSynchronizedUpdate,
    EndSynchronizedUpdate,
    ClearAll,
    MoveTo { col: u16, row: u16 },
    MoveRight(u16),
    SetForegroundColor(Color),
    SetBackgroundColor(Color),
    Print(Seq<char>),
}

impl View for Draw {
    type V = DrawView;

    open spec fn view(&self) -> DrawView {
        match *self {
            Draw::BeginSynchronizedUpdate => DrawView::BeginSynchronizedUpdate,
            Draw::EndSynchronizedUpdate => DrawView::EndSynchronizedUpdate,
            Draw::ClearAll => DrawView::ClearAll,
            Draw::MoveTo { col, row } => DrawView::MoveTo { col, row },
            Draw::MoveRight(by) => DrawView::MoveRight(by),
            Draw::SetForegroundColor(color) => DrawView::SetForegroundColor(color),
            Draw::SetBackgroundColor(color) => DrawView::SetBackgroundColor(color),
            Draw::Print(text) => DrawView::Print(text@),
        }
    }
}

impl Clone for Draw {
    fn clone(&self) -> (copy: Draw)
        ensures
            copy@ == self@,
    {
        match self {
            Draw::BeginSynchronizedUpdate => Draw::BeginSynchronizedUpdate,
            Draw::EndSynchronizedUpdate => Draw::EndSynchronizedUpdate,
            Draw::ClearAll => Draw::ClearAll,
            Draw::MoveTo { col, row } => Draw::MoveTo { col: *col, row: *row },
            Draw::MoveRight(by) => Draw::MoveRight(*by),
            Draw::SetForegroundColor(color) => Draw::SetForegroundColor(*color),
            Draw::SetBackgroundColor(color) => Draw::SetBackgroundColor(*color),
            Draw::Print(text) => Draw::Print(text.clone()),
        }
    }
}

/// A sequence of drawing commands as mathematical values.
pub open spec fn views(frame: Seq<Draw>) -> Seq<DrawView> {
    frame.map_values(|draw: Draw| draw@)
}

/// Appends one command to a frame.
pub(crate) fn emit(frame: &mut Vec<Draw>, draw: Draw)
    ensures
        views(final(frame)@) == views(old(frame)@).push(draw@),
{
    frame.push(draw);
    assert(views(frame@) =~= views(old(frame)@).push(draw@));
}

/// The first line of the welcome text: the editor's name.
pub open spec fn title_text() -> Seq<char> {
    "Ri - modern editor"@
}

/// The second line of the welcome text: how to quit.
pub open spec fn quit_hint_text() -> Seq<char> {
    "Press CTRL + c to quit."@
}

/// The color of the editor's name in the welcome text.
pub open spec fn title_color() -> Color {
    Color::Rgb { r: 87, g: 130, b: 247 }
}

/// The text that opens the command row.
pub open spec fn command_prompt_text() -> Seq<char> {
    ":"@
}

/// The block that stands for the cursor at the end of the command row.
pub open spec fn block_cursor_text() -> Seq<char> {
    "\u{2588}"@
}

/// The column at which a text of `len` characters starts so that it is
/// centered in `cols` columns: half the width less half the length, and
/// column zero where the text is too long for that.
pub open spec fn centered_column_of(cols: u16, len: nat) -> u16 {
    if cols / 2 >= len / 2 {
        (cols / 2 - len / 2) as u16
    } else {
        0
    }
}

/// The column at which a text of `len` characters starts so that it is
/// centered in `cols` columns.
pub fn centered_column(cols: u16, len: usize) -> (col: u16)
    ensures
        col == centered_column_of(cols, len as nat),
        col <= cols / 2,
{
    let half_width: u16 = cols / 2;
    let half_len: usize = len / 2;
    if half_len >= half_width as usize {
        0
    } else {
        half_width - half_len as u16
    }
}

/// One line of the welcome text on `row`: the cursor is moved to the column
/// that centers the text, the color is set, and the text is printed. A row
/// that the viewport does not have gets no line.
pub open spec fn welcome_line_view(
    cols: u16,
    rows: u16,
    row: u16,
    color: Color,
    text: Seq<char>,
) -> Seq<DrawView> {
    if row < rows {
        seq![
            DrawView::MoveTo { col: centered_column_of(cols, text.len()), row },
            DrawView::SetForegroundColor(color),
            DrawView::Print(text),
        ]
    } else {
        seq![]
    }
}

/// Appends one line of the welcome text to a frame, where the viewport has
/// the row for it.
pub(crate) fn paint_welcome_line(
    frame: &mut Vec<Draw>,
    cols: u16,
    rows: u16,
    row: u16,
    color: Color,
    text: &str,
)
    ensures
        views(final(frame)@) == views(old(frame)@) + welcome_line_view(
            cols,
            rows,
            row,
            color,
            text@,
        ),
{
    if row < rows {
        emit(frame, Draw::MoveTo { col: centered_column(cols, text.unicode_len()), row });
        emit(frame, Draw::SetForegroundColor(color));
        emit(frame, Draw::Print(text.to_owned()));
    }
    assert(views(frame@) =~= views(old(frame)@) + welcome_line_view(cols, rows, row, color, text@));
}

/// The two centered lines of the welcome text: the name on the middle row,
/// the quit hint on the row below it. In a viewport of two rows or one the
/// row below the middle is not there, and the hint is left out; in one of
/// no rows at all both lines are.
pub open spec fn welcome_view(cols: u16, rows: u16) -> Seq<DrawView> {
    welcome_line_view(cols, rows, rows / 2, title_color(), title_text()) + welcome_line_view(
        cols,
        rows,
        (rows / 2 + 1) as u16,
        Color::White,
        quit_hint_text(),
    )
}

/// The status bar on the second-to-last row: the row filled with the bar's
/// background, the mode's mnemonic at column 1, the status message three
/// columns after it if there is one, then the default background again.
pub open spec fn bar_view(editor: EditorView, cols: u16, rows: u16) -> Seq<DrawView> {
    seq![
        DrawView::MoveTo { col: 0, row: (rows - 2) as u16 },
        DrawView::SetBackgroundColor(editor.theme.status_bar_bg),
        DrawView::Print(crate::text::repeated(' ', cols as nat)),
        DrawView::MoveTo { col: 1, row: (rows - 2) as u16 },
        DrawView::Print(editor.mode.label_text()),
    ] + match editor.status_msg {
        Some(text) => seq![DrawView::MoveRight(3), DrawView::Print(text)],
        None => seq![],
    } + seq![DrawView::SetBackgroundColor(editor.theme.default_bg)]
}

/// The command row on the last row, drawn in command mode only: the
/// prompt, the command line as typed so far, and a block cursor.
pub open spec fn command_row_view(editor: EditorView, rows: u16) -> Seq<DrawView> {
    if editor.mode == Mode::Command {
        seq![
            DrawView::MoveTo { col: 0, row: (rows - 1) as u16 },
            DrawView::Print(command_prompt_text()),
            DrawView::Print(editor.cmd_buf),
            DrawView::Print(block_cursor_text()),
        ]
    } else {
        seq![]
    }
}

/// The status bar and, in command mode, the command row below it. A
/// viewport of fewer than two rows has no room for them: nothing is drawn.
pub open spec fn status_bar_view(editor: EditorView, cols: u16, rows: u16) -> Seq<DrawView> {
    if rows < 2 {
        seq![]
    } else {
        bar_view(editor, cols, rows) + command_row_view(editor, rows)
    }
}

/// One whole frame, as a single synchronized update: clear the screen,
/// paint the welcome text, paint the status bar.
pub open spec fn frame_view(editor: EditorView, cols: u16, rows: u16) -> Seq<DrawView> {
    seq![DrawView::BeginSynchronizedUpdate, DrawView::ClearAll] + welcome_view(cols, rows)
        + status_bar_view(editor, cols, rows) + seq![DrawView::EndSynchronizedUpdate]
}

/// Whether every cursor position that a frame moves to lies inside a
/// viewport of `cols` columns and `rows` rows.
pub open spec fn cursor_stays_inside(frame: Seq<DrawView>, cols: u16, rows: u16) -> bool {
    forall|i: int|
        0 <= i < frame.len() ==> match #[trigger] frame[i] {
            DrawView::MoveTo { col, row } => col < cols && row < rows,
            _ => true,
        }
}

/// In a viewport of at least two rows the status bar is on the
/// second-to-last row and the command row on the last: the bar starts by
/// moving to column 0 of row `rows - 2`, the command row, drawn in command
/// mode only, by moving to column 0 of row `rows - 1`, and the cursor is
/// moved to no other row, and to no column but 0 and 1.
pub proof fn lemma_status_bar_rows(editor: EditorView, cols: u16, rows: u16)
    requires
        rows >= 2,
    ensures
        status_bar_view(editor, cols, rows).len() >= 6,
        status_bar_view(editor, cols, rows)[0] == (DrawView::MoveTo {
            col: 0,
            row: (rows - 2) as u16,
        }),
        editor.mode == Mode::Command ==> status_bar_view(editor, cols, rows)[status_bar_view(
            editor,
            cols,
            rows,
        ).len() - 4] == (DrawView::MoveTo { col: 0, row: (rows - 1) as u16 }),
        forall|i: int|
            0 <= i < status_bar_view(editor, cols, rows).len() ==> match #[trigger] status_bar_view(
                editor,
                cols,
                rows,
            )[i] {
                DrawView::MoveTo { col, row } => col <= 1 && row < rows && (row == rows - 2 || (
                editor.mode == Mode::Command && row == rows - 1)),
                _ => true,
            },
{
    let bar = bar_view(editor, cols, rows);
    let row = command_row_view(editor, rows);
    assert(status_bar_view(editor, cols, rows) == bar + row);
    assert(bar.len() == 6 || bar.len() == 8);
    assert(bar[0] == (DrawView::MoveTo { col: 0, row: (rows - 2) as u16 }));
    assert forall|i: int| 0 <= i < (bar + row).len() implies match #[trigger] (bar + row)[i] {
        DrawView::MoveTo { col, row } => col <= 1 && row < rows && (row == rows - 2 || (editor.mode
            == Mode::Command && row == rows - 1)),
        _ => true,
    } by {
        if i < bar.len() {
            assert((bar + row)[i] == bar[i]);
            if i >= 5 {
                assert(bar[i] !is MoveTo);
            }
        } else {
            assert((bar + row)[i] == row[i - bar.len()]);
        }
    }
}

/// A frame never moves the cursor outside the viewport it is built for,
/// whatever the height of the viewport, as long as it has the two columns
/// that the mode's place at column 1 takes.
pub proof fn lemma_frame_cursor_stays_inside(editor: EditorView, cols: u16, rows: u16)
    requires
        cols >= 2,
    ensures
        cursor_stays_inside(frame_view(editor, cols, rows), cols, rows),
{
    let head = seq![DrawView::BeginSynchronizedUpdate, DrawView::ClearAll];
    let title = welcome_line_view(cols, rows, rows / 2, title_color(), title_text());
    let hint = welcome_line_view(
        cols,
        rows,
        (rows / 2 + 1) as u16,
        Color::White,
        quit_hint_text(),
    );
    let bar = status_bar_view(editor, cols, rows);
    let tail = seq![DrawView::EndSynchronizedUpdate];
    let frame = frame_view(editor, cols, rows);
    assert(frame == head + (title + hint) + bar + tail);
    if rows >= 2 {
        lemma_status_bar_rows(editor, cols, rows);
    }
    assert forall|i: int| 0 <= i < frame.len() implies match #[trigger] frame[i] {
        DrawView::MoveTo { col, row } => col < cols && row < rows,
        _ => true,
    } by {
        let after_head = head.len() as int;
        let after_title = after_head + title.len();
        let after_hint = after_title + hint.len();
        let after_bar = after_hint + bar.len();
        if i < after_head {
            assert(frame[i] == head[i]);
        } else if i < after_title {
            assert(frame[i] == title[i - after_head]);
        } else if i < after_hint {
            assert(frame[i] == hint[i - after_title]);
        } else if i < after_bar {
            assert(frame[i] == bar[i - after_hint]);
        } else {
            assert(frame[i] == tail[i - after_bar]);
        }
    }
}

} // verus!
