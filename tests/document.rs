use md_tui::document::{join_lines, split_lines, File};

fn strings(v: &[&str]) -> Vec<String> {
    v.iter().map(|s| s.to_string()).collect()
}

#[test]
fn split_lines_cuts_at_each_newline() {
    assert_eq!(split_lines("hello\nworld"), strings(&["hello", "world"]));
    assert_eq!(split_lines("a\n\nb"), strings(&["a", "", "b"]));
}

#[test]
fn split_lines_final_newline_opens_no_line() {
    assert_eq!(split_lines("a\nb\n"), strings(&["a", "b"]));
    assert_eq!(split_lines("\n"), strings(&[""]));
    assert_eq!(split_lines("a\n\n"), strings(&["a", ""]));
}

#[test]
fn split_lines_of_empty_text_is_empty() {
    assert_eq!(split_lines(""), Vec::<String>::new());
}

#[test]
fn split_lines_keeps_other_characters() {
    assert_eq!(split_lines("é ü\r\n\tß"), strings(&["é ü\r", "\tß"]));
}

#[test]
fn join_lines_ends_every_line() {
    assert_eq!(join_lines(&strings(&["a", "b"])), "a\nb\n");
    assert_eq!(join_lines(&strings(&[""])), "\n");
    assert_eq!(join_lines(&Vec::new()), "");
}

#[test]
fn open_missing_file_gives_one_empty_line() {
    let f = File::open("notes/todo.md".to_string(), None);
    assert_eq!(f.lines(), strings(&[""]));
    assert_eq!(f.name, "todo");
    assert_eq!(f.path, "notes/todo.md");
}

#[test]
fn open_reads_lines_and_name() {
    let f = File::open("notes.md".to_string(), Some("hello\nworld".to_string()));
    assert_eq!(f.lines(), strings(&["hello", "world"]));
    assert_eq!(f.name, "notes");
}

#[test]
fn open_empty_text_gives_one_empty_line() {
    let f = File::open("empty.txt".to_string(), Some(String::new()));
    assert_eq!(f.lines(), strings(&[""]));
}

#[test]
fn open_name_keeps_inner_dots() {
    let f = File::open("/home/me/archive.tar.gz".to_string(), None);
    assert_eq!(f.name, "archive.tar");
    let g = File::open("".to_string(), None);
    assert_eq!(g.name, "");
}

#[test]
fn contents_end_each_line_with_newline() {
    let f = File::open("notes.md".to_string(), Some("hello\nworld".to_string()));
    assert_eq!(f.contents(), "hello\nworld\n");
}

#[test]
fn save_and_reopen_keeps_lines() {
    for text in ["x\ny\n\nz", "", "\n\n", "one line", "trailing\n"] {
        let f = File::open("a.md".to_string(), Some(text.to_string()));
        let g = File::open("a.md".to_string(), Some(f.contents()));
        assert_eq!(g.lines(), f.lines());
    }
}
