//! The text buffer: tui-textarea's `TextArea`, seen through what the editor
//! reads of it (its lines and its cursor).
use vstd::prelude::*;
use tui_textarea::{CursorMove, Input, Key, TextArea};

verus! {

/// The document's text and cursor, held by tui-textarea's `TextArea`.
/// Verus sees none of it: what the editor reads of it is named by
/// `text_lines` and `text_cursor`. The terminal front end draws it.
#[verifier::external_body]
pub struct Buffer {
    pub area: TextArea<'static>,
}

/// tui-textarea's `Input`: a key and its Ctrl, Alt and Shift flags, all
/// public fields.
#[verifier::external_type_specification]
pub struct ExInput(Input);

/// tui-textarea's `Key`: the key of an input, a plain enum.
#[verifier::external_type_specification]
pub struct ExKey(Key);

/// tui-textarea's `CursorMove`: the cursor moves `TextArea::move_cursor` takes.
#[verifier::external_type_specification]
pub struct ExCursorMove(CursorMove);

/// The lines that a text area holds, each as its characters.
pub uninterp spec fn text_lines(t: Buffer) -> Seq<Seq<char>>;

/// The (row, column) of a text area's cursor, counted in characters from zero.
pub uninterp spec fn text_cursor(t: Buffer) -> (usize, usize);

/// Whether a selection is under way in a text area (started with Shift and
/// a cursor key in its own key bindings).
pub uninterp spec fn text_selecting(t: Buffer) -> bool;

/// The lines a text area holds after it handled key input `i` with its own
/// key bindings.
pub uninterp spec fn input_lines(t: Buffer, i: Input) -> Seq<Seq<char>>;

/// `c` inserted into line `row` of `lines` before column `col`.
pub open spec fn insert_char(lines: Seq<Seq<char>>, row: int, col: int, c: char) -> Seq<Seq<char>> {
    let line = lines[row];
    lines.update(row, line.subrange(0, col) + seq![c] + line.subrange(col, line.len() as int))
}

/// An input that the text area's key bindings type as one character: a
/// character other than a line break, without Ctrl or Alt.
pub open spec fn plain_char(i: Input) -> Option<char> {
    match i.key {
        Key::Char(c) => if !i.ctrl && !i.alt && c != '\n' && c != '\r' { Some(c) } else { None },
        _ => None,
    }
}

/// The cursor move that the text area's key bindings make for an arrow,
/// Home or End key pressed without Ctrl or Alt.
pub open spec fn edit_move(i: Input) -> Option<CursorMove> {
    if i.ctrl || i.alt {
        None
    } else {
        match i.key {
            Key::Down => Some(CursorMove::Down),
            Key::Up => Some(CursorMove::Up),
            Key::Right => Some(CursorMove::Forward),
            Key::Left => Some(CursorMove::Back),
            Key::Home => Some(CursorMove::Head),
            Key::End => Some(CursorMove::End),
            _ => None,
        }
    }
}

/// The characters of each line.
pub open spec fn line_views(lines: Seq<String>) -> Seq<Seq<char>> {
    lines.map_values(|l: String| l@)
}

/// A text area always holds at least one line (and, in a `Vec`, at most
/// `usize::MAX`), and its cursor stands on a line and at most one past that
/// line's last character: the invariants `TextArea::input` asserts after
/// each key.
pub open spec fn text_wf(t: Buffer) -> bool {
    let lines = text_lines(t);
    let (row, col) = text_cursor(t);
    &&& 0 < lines.len() <= usize::MAX
    &&& row < lines.len()
    &&& col <= lines[row as int].len()
}

/// Where a cursor at `(row, col)` goes on `lines` under one of the moves the
/// editor makes or states; `None` for the moves this library does not use.
pub open spec fn next_cursor(m: CursorMove, lines: Seq<Seq<char>>, row: usize, col: usize) -> Option<(usize, usize)> {
    match m {
        CursorMove::Forward => if col >= lines[row as int].len() {
            if row + 1 < lines.len() { Some(((row + 1) as usize, 0usize)) } else { Some((row, col)) }
        } else {
            Some((row, (col + 1) as usize))
        },
        CursorMove::Back => if col == 0 {
            if row == 0 { Some((row, col)) } else { Some(((row - 1) as usize, lines[row - 1].len() as usize)) }
        } else {
            Some((row, (col - 1) as usize))
        },
        CursorMove::Up => if row == 0 {
            Some((row, col))
        } else {
            Some(((row - 1) as usize, fit_col(col, lines[row - 1])))
        },
        CursorMove::Down => if row + 1 < lines.len() {
            Some(((row + 1) as usize, fit_col(col, lines[row + 1])))
        } else {
            Some((row, col))
        },
        CursorMove::Head => Some((row, 0usize)),
        CursorMove::End => Some((row, lines[row as int].len() as usize)),
        CursorMove::Top => Some((0usize, fit_col(col, lines[0]))),
        CursorMove::Bottom => Some(((lines.len() - 1) as usize, fit_col(col, lines[lines.len() - 1]))),
        _ => None,
    }
}

/// A column kept within a line: at most one past its last character.
pub open spec fn fit_col(col: usize, line: Seq<char>) -> usize {
    if col <= line.len() { col } else { line.len() as usize }
}

/// Relies on `TextArea::new`: the text area holds the lines given (one empty
/// line where none are given), with the cursor at the start.
#[verifier::external_body]
pub(crate) fn new_text(lines: Vec<String>) -> (r: Buffer)
    ensures
        text_lines(r) == (if lines@.len() == 0 { seq![Seq::<char>::empty()] } else { line_views(lines@) }),
        text_cursor(r) == (0usize, 0usize),
        text_wf(r),
        !text_selecting(r),
{
    Buffer { area: TextArea::new(lines) }
}

/// Relies on `TextArea::lines`: a copy of the lines held.
#[verifier::external_body]
pub(crate) fn text_lines_of(t: &Buffer) -> (r: Vec<String>)
    ensures
        line_views(r@) == text_lines(*t),
{
    t.area.lines().to_vec()
}

/// Relies on `TextArea::cursor`: the cursor's row and column.
#[verifier::external_body]
pub(crate) fn text_cursor_of(t: &Buffer) -> (r: (usize, usize))
    ensures
        r == text_cursor(*t),
{
    t.area.cursor()
}

/// Relies on `TextArea::move_cursor`: the lines stay as they were, and the
/// cursor goes where `CursorMove::next_cursor` sends it.
#[verifier::external_body]
pub(crate) fn move_text_cursor(t: &mut Buffer, m: CursorMove)
    requires
        text_wf(*old(t)),
    ensures
        text_wf(*final(t)),
        text_lines(*final(t)) == text_lines(*old(t)),
        !text_selecting(*old(t)) ==> !text_selecting(*final(t)),
        next_cursor(m, text_lines(*old(t)), text_cursor(*old(t)).0, text_cursor(*old(t)).1) is Some ==>
            text_cursor(*final(t)) == next_cursor(m, text_lines(*old(t)), text_cursor(*old(t)).0, text_cursor(*old(t)).1)->0,
{
    t.area.move_cursor(m)
}

/// Relies on `TextArea::scroll`: the viewport moves by `rows` lines (one,
/// up or down: the viewport negates a negative delta, which must not be
/// `i16::MIN`); the lines stay as they were and the cursor stays on one of
/// them.
#[verifier::external_body]
pub(crate) fn scroll_text(t: &mut Buffer, rows: i16)
    requires
        text_wf(*old(t)),
        rows == 1 || rows == -1,
    ensures
        text_wf(*final(t)),
        text_lines(*final(t)) == text_lines(*old(t)),
        !text_selecting(*old(t)) ==> !text_selecting(*final(t)),
{
    t.area.scroll((rows, 0))
}

/// Relies on `TextArea::input`: the key goes to the text area's own key
/// bindings; a plain character with no selection under way is inserted at
/// the cursor by `TextArea::insert_char`, and the cursor steps past it; an
/// unshifted arrow, Home or End key with no selection under way moves the
/// cursor as `TextArea::move_cursor` does and leaves the lines as they were.
#[verifier::external_body]
pub(crate) fn text_input(t: &mut Buffer, i: Input) -> (r: bool)
    requires
        text_wf(*old(t)),
    ensures
        text_wf(*final(t)),
        text_lines(*final(t)) == input_lines(*old(t), i),
        plain_char(i) is Some && !text_selecting(*old(t)) ==> {
            let c = plain_char(i)->0;
            let (row, col) = text_cursor(*old(t));
            &&& text_lines(*final(t)) == insert_char(text_lines(*old(t)), row as int, col as int, c)
            &&& text_cursor(*final(t)) == (row, (col + 1) as usize)
            &&& !text_selecting(*final(t))
        },
        edit_move(i) is Some && !i.shift && !text_selecting(*old(t)) ==> {
            let (row, col) = text_cursor(*old(t));
            &&& text_lines(*final(t)) == text_lines(*old(t))
            &&& text_cursor(*final(t)) == next_cursor(edit_move(i)->0, text_lines(*old(t)), row, col)->0
            &&& !text_selecting(*final(t))
        },
{
    t.area.input(i)
}

} // verus!
