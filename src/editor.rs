//! The editor's state machine: its modes, the keys each mode answers to, and
//! what one input event does to the state and the document.
use vstd::prelude::*;
use tui_textarea::{CursorMove, Input, Key};
use crate::document::File;
use crate::textarea::{
    edit_move, input_lines, insert_char, move_text_cursor, next_cursor, plain_char, scroll_text, text_cursor,
    text_input, text_selecting,
};

verus! {

/// The interaction state of the editor.
#[derive(Debug, Clone, Copy, PartialEq, Eq, Structural)]
pub enum Mode {
    /// Keys are typed into the document.
    Edit,
    /// Keys move the cursor; the text cannot change.
    View,
    /// The session is over: nothing more is processed.
    Exit,
}

/// One input event, as the terminal reports it.
#[derive(Debug)]
pub enum Event {
    /// The terminal window got the input focus.
    FocusGained,
    /// The terminal window lost the input focus.
    FocusLost,
    /// A key or mouse input.
    Key(Input),
}

/// What the terminal front end has to do after an event.
#[derive(Debug, Clone, Copy, PartialEq, Eq, Structural)]
pub enum Action {
    /// Nothing beyond drawing the next frame.
    Nothing,
    /// Write the document's contents to its path, then report the outcome
    /// with `Model::record_save`.
    Save,
}

/// The outcome of the last save, shown until the mode changes or another
/// save is asked for.
#[derive(Debug, Clone, Copy, PartialEq, Eq, Structural)]
pub enum Notice {
    Saved,
    SaveFailed,
}

/// What a key does in View mode.
#[derive(Debug, Clone, Copy)]
pub enum ViewCommand {
    Quit,
    Edit,
    Save,
    Move(CursorMove),
    Scroll(i16),
    Ignore,
}

/// What a key does in Edit mode.
#[derive(Debug, Clone, Copy, PartialEq, Eq, Structural)]
pub enum EditCommand {
    Leave,
    Save,
    Type,
}

#[derive(Debug, Clone, Copy)]
enum Message {
    Edit,
    Save,
    View,
    Done,
}

/// The key table of View mode: the first row that matches decides.
pub open spec fn view_command(i: Input) -> ViewCommand {
    let k = i.key;
    if k == Key::Esc || k == Key::Char('q') {
        ViewCommand::Quit
    } else if k == Key::Char('i') || k == Key::Enter {
        ViewCommand::Edit
    } else if k == Key::Char('s') && i.ctrl {
        ViewCommand::Save
    } else if k == Key::Char('K') {
        ViewCommand::Move(CursorMove::Top)
    } else if k == Key::Char('J') {
        ViewCommand::Move(CursorMove::Bottom)
    } else if k == Key::Char('j') || k == Key::Down {
        ViewCommand::Move(CursorMove::Down)
    } else if k == Key::Char('k') || k == Key::Up {
        ViewCommand::Move(CursorMove::Up)
    } else if k == Key::Char('h') || k == Key::Left {
        ViewCommand::Move(CursorMove::Back)
    } else if k == Key::Char('l') || k == Key::Right {
        ViewCommand::Move(CursorMove::Forward)
    } else if k == Key::MouseScrollDown {
        ViewCommand::Scroll(1i16)
    } else if k == Key::MouseScrollUp {
        ViewCommand::Scroll(-1i16)
    } else {
        ViewCommand::Ignore
    }
}

/// The key table of Edit mode: Escape and Ctrl+S are taken before anything
/// reaches the text.
pub open spec fn edit_command(i: Input) -> EditCommand {
    if i.key == Key::Esc {
        EditCommand::Leave
    } else if i.key == Key::Char('s') && i.ctrl {
        EditCommand::Save
    } else {
        EditCommand::Type
    }
}

/// The mode after event `e` in mode `m`.
pub open spec fn mode_after(m: Mode, e: Event) -> Mode {
    match e {
        Event::Key(i) => match m {
            Mode::View => match view_command(i) {
                ViewCommand::Quit => Mode::Exit,
                ViewCommand::Edit => Mode::Edit,
                _ => Mode::View,
            },
            Mode::Edit => match edit_command(i) {
                EditCommand::Type => Mode::Edit,
                _ => Mode::View,
            },
            Mode::Exit => Mode::Exit,
        },
        _ => m,
    }
}

/// The event asks for a save: Ctrl+S in View or Edit mode.
pub open spec fn saves(m: Mode, e: Event) -> bool {
    match e {
        Event::Key(i) => match m {
            Mode::View => view_command(i) is Save,
            Mode::Edit => edit_command(i) == EditCommand::Save,
            Mode::Exit => false,
        },
        _ => false,
    }
}

/// The event is handed to the text area as typing: any key in Edit mode
/// but Escape and Ctrl+S.
pub open spec fn types_text(m: Mode, e: Event) -> bool {
    match e {
        Event::Key(i) => m == Mode::Edit && edit_command(i) == EditCommand::Type,
        _ => false,
    }
}

/// The cursor move a View-mode event makes, if any.
pub open spec fn view_move(m: Mode, e: Event) -> Option<CursorMove> {
    match e {
        Event::Key(i) => if m == Mode::View {
            match view_command(i) {
                ViewCommand::Move(c) => Some(c),
                _ => None,
            }
        } else {
            None
        },
        _ => None,
    }
}

/// The event scrolls the viewport (the mouse wheel in View mode).
pub open spec fn scrolls(m: Mode, e: Event) -> bool {
    match e {
        Event::Key(i) => m == Mode::View && view_command(i) is Scroll,
        _ => false,
    }
}

/// The focus flag after event `e`.
pub open spec fn focus_after(f: bool, e: Event) -> bool {
    match e {
        Event::FocusGained => true,
        Event::FocusLost => false,
        _ => f,
    }
}

/// The whole effect of one event: `after` and `act` are what `read_input`
/// makes of `before` and `e`.
pub open spec fn dispatched(before: Model, e: Event, after: Model, act: Action) -> bool {
    &&& after.wf()
    &&& after.mode == mode_after(before.mode, e)
    &&& after.is_focused == focus_after(before.is_focused, e)
    &&& act == (if saves(before.mode, e) { Action::Save } else { Action::Nothing })
    &&& after.file.path == before.file.path
    &&& after.file.name == before.file.name
    &&& after.notice == (if before.mode != after.mode || saves(before.mode, e) { None } else { before.notice })
    &&& !types_text(before.mode, e) ==> after.file.view_lines() == before.file.view_lines()
    &&& !text_selecting(before.file.textarea) && !types_text(before.mode, e)
        ==> !text_selecting(after.file.textarea)
    &&& types_text(before.mode, e) ==> {
        let i = e->Key_0;
        &&& after.file.view_lines() == input_lines(before.file.textarea, i)
        &&& plain_char(i) is Some && !text_selecting(before.file.textarea) ==> {
            let c = plain_char(i)->0;
            let (row, col) = text_cursor(before.file.textarea);
            &&& after.file.view_lines() == insert_char(before.file.view_lines(), row as int, col as int, c)
            &&& text_cursor(after.file.textarea) == (row, (col + 1) as usize)
            &&& !text_selecting(after.file.textarea)
        }
        &&& edit_move(i) is Some && !i.shift && !text_selecting(before.file.textarea) ==> {
            let (row, col) = text_cursor(before.file.textarea);
            &&& after.file.view_lines() == before.file.view_lines()
            &&& text_cursor(after.file.textarea) == next_cursor(
                edit_move(i)->0,
                before.file.view_lines(),
                row,
                col,
            )->0
            &&& !text_selecting(after.file.textarea)
        }
    }
    &&& !types_text(before.mode, e) && !scrolls(before.mode, e) && view_move(before.mode, e) is None
        ==> after.file == before.file
    &&& view_move(before.mode, e) matches Some(c) ==> {
        let (row, col) = text_cursor(before.file.textarea);
        next_cursor(c, before.file.view_lines(), row, col) matches Some(to)
            ==> text_cursor(after.file.textarea) == to
    }
}

/// The editor: its mode, its document and whether the terminal has focus.
pub struct Model {
    pub mode: Mode,
    pub file: File,
    pub is_focused: bool,
    pub notice: Option<Notice>,
}

/// Decides what a key does in View mode, as `view_command` states.
pub fn view_command_of(i: &Input) -> (r: ViewCommand)
    ensures
        r == view_command(*i),
{
    match i.key {
        Key::Esc | Key::Char('q') => ViewCommand::Quit,
        Key::Char('i') | Key::Enter => ViewCommand::Edit,
        Key::Char('s') if i.ctrl => ViewCommand::Save,
        Key::Char('K') => ViewCommand::Move(CursorMove::Top),
        Key::Char('J') => ViewCommand::Move(CursorMove::Bottom),
        Key::Char('j') | Key::Down => ViewCommand::Move(CursorMove::Down),
        Key::Char('k') | Key::Up => ViewCommand::Move(CursorMove::Up),
        Key::Char('h') | Key::Left => ViewCommand::Move(CursorMove::Back),
        Key::Char('l') | Key::Right => ViewCommand::Move(CursorMove::Forward),
        Key::MouseScrollDown => ViewCommand::Scroll(1),
        Key::MouseScrollUp => ViewCommand::Scroll(-1),
        _ => ViewCommand::Ignore,
    }
}

/// Decides what a key does in Edit mode, as `edit_command` states.
pub fn edit_command_of(i: &Input) -> (r: EditCommand)
    ensures
        r == edit_command(*i),
{
    match i.key {
        Key::Esc => EditCommand::Leave,
        Key::Char('s') if i.ctrl => EditCommand::Save,
        _ => EditCommand::Type,
    }
}

impl Model {
    /// The document's buffer is in a state the text area can reach.
    pub open spec fn wf(&self) -> bool {
        self.file.wf()
    }

    /// A fresh session on `file`: View mode, with focus.
    pub fn new(file: File) -> (r: Model)
        requires
            file.wf(),
        ensures
            r.wf(),
            r.mode == Mode::View,
            r.file == file,
            r.is_focused,
            r.notice is None,
    {
        Model { mode: Mode::View, file, is_focused: true, notice: None }
    }

    /// Applies a mode change; a save is handed out as `Action::Save`.
    fn update(&mut self, msg: Message) -> (act: Action)
        ensures
            final(self).file == old(self).file,
            final(self).is_focused == old(self).is_focused,
            final(self).mode == match msg {
                Message::Edit => Mode::Edit,
                Message::Done => Mode::Exit,
                _ => Mode::View,
            },
            act == (if msg is Save { Action::Save } else { Action::Nothing }),
            final(self).notice == (if final(self).mode != old(self).mode || msg is Save { None } else { old(self).notice }),
    {
        let before = self.mode;
        let act = match msg {
            Message::Edit => {
                self.mode = Mode::Edit;
                Action::Nothing
            },
            Message::Save => {
                self.mode = Mode::View;
                Action::Save
            },
            Message::View => {
                self.mode = Mode::View;
                Action::Nothing
            },
            Message::Done => {
                self.mode = Mode::Exit;
                Action::Nothing
            },
        };
        if before != self.mode || act == Action::Save {
            self.notice = None;
        }
        act
    }

    /// Records how the save that `Action::Save` asked for went.
    pub fn record_save(&mut self, ok: bool)
        ensures
            final(self).notice == Some(if ok { Notice::Saved } else { Notice::SaveFailed }),
            final(self).mode == old(self).mode,
            final(self).file == old(self).file,
            final(self).is_focused == old(self).is_focused,
    {
        self.notice = Some(if ok { Notice::Saved } else { Notice::SaveFailed });
    }
}

/// Handles one input event: focus changes set the focus flag; keys are
/// looked up in the current mode's key table.
pub fn read_input(event: Event, model: &mut Model) -> (act: Action)
    requires
        old(model).wf(),
    ensures
        dispatched(*old(model), event, *final(model), act),
{
    match event {
        Event::FocusGained => {
            model.is_focused = true;
            Action::Nothing
        },
        Event::FocusLost => {
            model.is_focused = false;
            Action::Nothing
        },
        Event::Key(i) => match model.mode {
            Mode::Edit => match edit_command_of(&i) {
                EditCommand::Leave => model.update(Message::View),
                EditCommand::Save => model.update(Message::Save),
                EditCommand::Type => {
                    text_input(&mut model.file.textarea, i);
                    Action::Nothing
                },
            },
            Mode::View => match view_command_of(&i) {
                ViewCommand::Quit => model.update(Message::Done),
                ViewCommand::Edit => model.update(Message::Edit),
                ViewCommand::Save => model.update(Message::Save),
                ViewCommand::Move(m) => {
                    move_text_cursor(&mut model.file.textarea, m);
                    Action::Nothing
                },
                ViewCommand::Scroll(rows) => {
                    scroll_text(&mut model.file.textarea, rows);
                    Action::Nothing
                },
                ViewCommand::Ignore => Action::Nothing,
            },
            Mode::Exit => Action::Nothing,
        },
    }
}

/// A View-mode navigation key: one that moves the cursor or scrolls.
pub open spec fn is_navigation(i: Input) -> bool {
    view_command(i) is Move || view_command(i) is Scroll
}

/// Navigation never edits: through any run of navigation keys read from View
/// mode, the document keeps its lines, path and name, and the editor stays in
/// View mode.
pub proof fn lemma_navigation_keeps_text(states: Seq<Model>, keys: Seq<Input>, acts: Seq<Action>)
    requires
        states.len() == keys.len() + 1,
        acts.len() == keys.len(),
        states[0].mode == Mode::View,
        forall|k: int| 0 <= k < keys.len() ==> is_navigation(#[trigger] keys[k]),
        forall|k: int|
            0 <= k < keys.len() ==> dispatched(
                #[trigger] states[k],
                Event::Key(keys[k]),
                states[k + 1],
                acts[k],
            ),
    ensures
        forall|k: int|
            0 <= k < states.len() ==> (#[trigger] states[k]).file.view_lines()
                == states[0].file.view_lines() && states[k].mode == Mode::View
                && states[k].file.path == states[0].file.path
                && states[k].file.name == states[0].file.name,
    decreases keys.len(),
{
    if keys.len() > 0 {
        let n: int = keys.len() - 1;
        let s0 = states.drop_last();
        assert forall|k: int| 0 <= k < keys.drop_last().len() implies dispatched(
            #[trigger] s0[k],
            Event::Key(keys.drop_last()[k]),
            s0[k + 1],
            acts.drop_last()[k],
        ) by {
            assert(s0[k] == states[k]);
            assert(s0[k + 1] == states[k + 1]);
            assert(dispatched(states[k], Event::Key(keys[k]), states[k + 1], acts[k]));
        }
        assert forall|k: int| 0 <= k < keys.drop_last().len() implies is_navigation(
            #[trigger] keys.drop_last()[k],
        ) by {
            assert(is_navigation(keys[k]));
        }
        lemma_navigation_keeps_text(s0, keys.drop_last(), acts.drop_last());
        assert(s0[n as int] == states[n as int]);
        assert(dispatched(states[n as int], Event::Key(keys[n as int]), states[n + 1], acts[n as int]));
        assert(is_navigation(keys[n as int]));
        assert forall|k: int| 0 <= k < states.len() implies (#[trigger] states[k]).file.view_lines()
            == states[0].file.view_lines() && states[k].mode == Mode::View
            && states[k].file.path == states[0].file.path
            && states[k].file.name == states[0].file.name by {
            if k < states.len() - 1 {
                assert(s0[k] == states[k]);
            }
        }
    }
}

/// From View mode, Escape or `q` ends the session, and no other event does.
pub proof fn lemma_view_exit(before: Model, e: Event, after: Model, act: Action)
    requires
        before.mode == Mode::View,
        dispatched(before, e, after, act),
    ensures
        after.mode == Mode::Exit <==> (e matches Event::Key(i) && (i.key == Key::Esc || i.key
            == Key::Char('q'))),
{
}

/// From View mode, `i` or Enter starts editing.
pub proof fn lemma_view_to_edit(before: Model, i: Input, after: Model, act: Action)
    requires
        before.mode == Mode::View,
        i.key == Key::Char('i') || i.key == Key::Enter,
        dispatched(before, Event::Key(i), after, act),
    ensures
        after.mode == Mode::Edit,
{
}

/// From Edit mode, Escape goes back to View mode, and no event ends the
/// session directly.
pub proof fn lemma_edit_exit(before: Model, e: Event, after: Model, act: Action)
    requires
        before.mode == Mode::Edit,
        dispatched(before, e, after, act),
    ensures
        after.mode != Mode::Exit,
        (e matches Event::Key(i) && i.key == Key::Esc) ==> after.mode == Mode::View,
{
}

/// Ctrl+S saves from View and from Edit mode, and a save always leaves the
/// editor in View mode.
pub proof fn lemma_save_to_view(before: Model, e: Event, after: Model, act: Action)
    requires
        dispatched(before, e, after, act),
    ensures
        act == Action::Save ==> after.mode == Mode::View,
        (before.mode == Mode::View || before.mode == Mode::Edit) && (e matches Event::Key(i) && i.key
            == Key::Char('s') && i.ctrl) ==> act == Action::Save && after.mode == Mode::View,
{
}

} // verus!
