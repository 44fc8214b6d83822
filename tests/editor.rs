use md_tui::document::File;
use md_tui::editor::{read_input, Action, Event, Mode, Model};
use md_tui::Settings;
use tui_textarea::{Input, Key};

fn key(k: Key) -> Event {
    Event::Key(Input { key: k, ctrl: false, alt: false, shift: false })
}

fn ctrl(c: char) -> Event {
    Event::Key(Input { key: Key::Char(c), ctrl: true, alt: false, shift: false })
}

fn model(text: &str) -> Model {
    Model::new(File::open("notes.md".to_string(), Some(text.to_string())))
}

fn strings(v: &[&str]) -> Vec<String> {
    v.iter().map(|s| s.to_string()).collect()
}

#[test]
fn new_model_starts_in_view_with_focus() {
    let m = model("a");
    assert_eq!(m.mode, Mode::View);
    assert!(m.is_focused);
    assert_eq!(m.mode_label(), "[VIEW]");
    assert_eq!(m.title_label(), "[notes]");
    assert_eq!(m.notice_label(), None);
}

#[test]
fn navigation_never_changes_text() {
    let mut m = model("first line\nsecond\n\nfourth");
    let before = m.file.lines();
    let keys = [
        Key::Char('j'), Key::Down, Key::Char('l'), Key::Right, Key::Char('J'), Key::Char('k'),
        Key::Up, Key::Char('h'), Key::Left, Key::Char('K'), Key::MouseScrollDown,
        Key::MouseScrollUp, Key::Char('x'), Key::Backspace, Key::Delete, Key::Tab,
    ];
    for k in keys {
        assert_eq!(read_input(key(k), &mut m), Action::Nothing);
        assert_eq!(m.mode, Mode::View);
        assert_eq!(m.file.lines(), before);
    }
}

#[test]
fn view_escape_and_q_exit() {
    let mut m = model("a");
    read_input(key(Key::Esc), &mut m);
    assert_eq!(m.mode, Mode::Exit);
    assert_eq!(m.mode_label(), "");
    let mut m = model("a");
    read_input(key(Key::Char('q')), &mut m);
    assert_eq!(m.mode, Mode::Exit);
}

#[test]
fn view_other_keys_do_not_exit() {
    for e in [key(Key::Char('Q')), key(Key::Char('x')), key(Key::Enter), ctrl('s'), key(Key::F(1)), Event::FocusLost] {
        let mut m = model("a");
        read_input(e, &mut m);
        assert_ne!(m.mode, Mode::Exit);
    }
}

#[test]
fn view_i_and_enter_edit() {
    let mut m = model("a");
    read_input(key(Key::Char('i')), &mut m);
    assert_eq!(m.mode, Mode::Edit);
    assert_eq!(m.mode_label(), "[EDIT]");
    let mut m = model("a");
    read_input(key(Key::Enter), &mut m);
    assert_eq!(m.mode, Mode::Edit);
}

#[test]
fn edit_escape_returns_to_view() {
    let mut m = model("a");
    read_input(key(Key::Char('i')), &mut m);
    read_input(key(Key::Esc), &mut m);
    assert_eq!(m.mode, Mode::View);
}

#[test]
fn edit_q_is_typed_not_exit() {
    let mut m = model("a");
    read_input(key(Key::Char('i')), &mut m);
    read_input(key(Key::Char('q')), &mut m);
    assert_eq!(m.mode, Mode::Edit);
    assert_eq!(m.file.lines(), strings(&["qa"]));
}

#[test]
fn save_from_view_and_edit_returns_to_view() {
    let mut m = model("a");
    assert_eq!(read_input(ctrl('s'), &mut m), Action::Save);
    assert_eq!(m.mode, Mode::View);
    let mut m = model("a");
    read_input(key(Key::Char('i')), &mut m);
    assert_eq!(read_input(ctrl('s'), &mut m), Action::Save);
    assert_eq!(m.mode, Mode::View);
    assert_eq!(m.file.lines(), strings(&["a"]));
}

#[test]
fn plain_s_in_edit_is_typed() {
    let mut m = model("");
    read_input(key(Key::Char('i')), &mut m);
    assert_eq!(read_input(key(Key::Char('s')), &mut m), Action::Nothing);
    assert_eq!(m.file.lines(), strings(&["s"]));
}

#[test]
fn edit_and_save_round_trip() {
    let mut m = model("a\nb");
    read_input(key(Key::Char('i')), &mut m);
    read_input(key(Key::Down), &mut m);
    read_input(key(Key::End), &mut m);
    read_input(key(Key::Char('c')), &mut m);
    assert_eq!(m.file.lines(), strings(&["a", "bc"]));
    assert_eq!(read_input(ctrl('s'), &mut m), Action::Save);
    let saved = m.file.contents();
    assert_eq!(saved, "a\nbc\n");
    let again = File::open("notes.md".to_string(), Some(saved));
    assert_eq!(again.lines(), strings(&["a", "bc"]));
}

#[test]
fn notes_session_scenario() {
    let mut m = model("hello\nworld");
    assert_eq!(m.mode_label(), "[VIEW]");
    assert_eq!(m.position_label(), "[1:0]");
    read_input(key(Key::Char('j')), &mut m);
    assert_eq!(m.position_label(), "[2:0]");
    read_input(key(Key::Char('i')), &mut m);
    assert_eq!(m.mode_label(), "[EDIT]");
    assert!(m.cursor_blinks());
    read_input(key(Key::End), &mut m);
    read_input(key(Key::Char('!')), &mut m);
    assert_eq!(m.file.lines()[1], "world!");
    assert_eq!(read_input(ctrl('s'), &mut m), Action::Save);
    assert_eq!(m.file.contents(), "hello\nworld!\n");
    assert_eq!(m.mode_label(), "[VIEW]");
    assert!(!m.cursor_blinks());
}

#[test]
fn focus_lost_in_edit_changes_only_style() {
    let mut m = model("hello");
    read_input(key(Key::Char('i')), &mut m);
    let lines = m.file.lines();
    let pos = m.position_label();
    assert!(!m.border_dimmed());
    assert_eq!(read_input(Event::FocusLost, &mut m), Action::Nothing);
    assert_eq!(m.mode, Mode::Edit);
    assert_eq!(m.file.lines(), lines);
    assert_eq!(m.position_label(), pos);
    assert!(m.border_dimmed());
    read_input(Event::FocusGained, &mut m);
    assert!(!m.border_dimmed());
    assert_eq!(m.mode, Mode::Edit);
}

#[test]
fn exit_mode_ignores_keys() {
    let mut m = model("a");
    read_input(key(Key::Char('q')), &mut m);
    assert_eq!(read_input(key(Key::Char('i')), &mut m), Action::Nothing);
    assert_eq!(read_input(ctrl('s'), &mut m), Action::Nothing);
    assert_eq!(m.mode, Mode::Exit);
}

#[test]
fn view_moves_follow_the_key_table() {
    let text: Vec<String> = (1..=12).map(|i| format!("line {}", i)).collect();
    let mut m = model(&text.join("\n"));
    read_input(key(Key::Char('J')), &mut m);
    assert_eq!(m.position_label(), "[12:0]");
    read_input(key(Key::Char('l')), &mut m);
    read_input(key(Key::Right), &mut m);
    assert_eq!(m.position_label(), "[12:2]");
    read_input(key(Key::Char('h')), &mut m);
    assert_eq!(m.position_label(), "[12:1]");
    read_input(key(Key::Char('k')), &mut m);
    read_input(key(Key::Up), &mut m);
    assert_eq!(m.position_label(), "[10:1]");
    read_input(key(Key::Char('K')), &mut m);
    assert_eq!(m.position_label(), "[1:1]");
    read_input(key(Key::Char('k')), &mut m);
    assert_eq!(m.position_label(), "[1:1]");
}

#[test]
fn save_notice_shown_until_edit() {
    let mut m = model("a");
    read_input(ctrl('s'), &mut m);
    m.record_save(true);
    assert_eq!(m.notice_label(), Some("File has been saved!"));
    read_input(key(Key::Char('j')), &mut m);
    assert_eq!(m.notice_label(), Some("File has been saved!"));
    read_input(key(Key::Char('i')), &mut m);
    assert_eq!(m.notice_label(), None);
    read_input(ctrl('s'), &mut m);
    m.record_save(false);
    assert_eq!(m.notice_label(), Some("The file could not be saved!"));
}

#[test]
fn settings_hold_the_folder() {
    assert_eq!(Settings::new("/notes".to_string()).folder_path, Some("/notes".to_string()));
    assert_eq!(Settings::default().folder_path, None);
}

#[test]
fn edit_mode_moves_keep_text() {
    let mut m = model("abc\nde");
    read_input(key(Key::Char('i')), &mut m);
    read_input(key(Key::End), &mut m);
    assert_eq!(m.position_label(), "[1:3]");
    read_input(key(Key::Down), &mut m);
    assert_eq!(m.position_label(), "[2:2]");
    read_input(key(Key::Left), &mut m);
    assert_eq!(m.position_label(), "[2:1]");
    read_input(key(Key::Home), &mut m);
    assert_eq!(m.position_label(), "[2:0]");
    read_input(key(Key::Up), &mut m);
    read_input(key(Key::Right), &mut m);
    assert_eq!(m.position_label(), "[1:1]");
    assert_eq!(m.file.lines(), strings(&["abc", "de"]));
    assert_eq!(m.mode, Mode::Edit);
}
