//! What the frame shows around the text: the title bar's labels and the
//! styles that depend on the editor's state.
use vstd::prelude::*;
use vstd::string::StringExecFns;
use crate::editor::{Mode, Model, Notice};
use crate::textarea::{text_cursor, text_cursor_of};

verus! {

/// The decimal digit for `d`, which is below ten.
pub open spec fn digit(d: nat) -> char {
    if d == 0 { '0' } else if d == 1 { '1' } else if d == 2 { '2' } else if d == 3 { '3' }
    else if d == 4 { '4' } else if d == 5 { '5' } else if d == 6 { '6' } else if d == 7 { '7' }
    else if d == 8 { '8' } else { '9' }
}

/// `n` written in decimal, without leading zeros.
pub open spec fn decimal(n: nat) -> Seq<char>
    decreases n,
{
    if n < 10 {
        seq![digit(n)]
    } else {
        decimal(n / 10).push(digit(n % 10))
    }
}

/// `s` between square brackets.
pub open spec fn bracketed(s: Seq<char>) -> Seq<char> {
    seq!['['] + s + seq![']']
}

fn digit_char(d: usize) -> (c: char)
    requires
        d < 10,
    ensures
        c == digit(d as nat),
{
    if d == 0 { '0' } else if d == 1 { '1' } else if d == 2 { '2' } else if d == 3 { '3' }
    else if d == 4 { '4' } else if d == 5 { '5' } else if d == 6 { '6' } else if d == 7 { '7' }
    else if d == 8 { '8' } else { '9' }
}

fn decimal_chars(n: usize, out: &mut Vec<char>)
    ensures
        final(out)@ == old(out)@ + decimal(n as nat),
    decreases n,
{
    if n < 10 {
        out.push(digit_char(n));
    } else {
        decimal_chars(n / 10, out);
        out.push(digit_char(n % 10));
    }
}

impl Model {
    /// The title: the document's name in brackets.
    pub fn title_label(&self) -> (r: String)
        ensures
            r@ == bracketed(self.file.name@),
    {
        let mut out: Vec<char> = Vec::new();
        out.push('[');
        let mut i: usize = 0;
        let name = self.file.name.as_str();
        let n: usize = name.unicode_len();
        while i < n
            invariant
                n == name@.len(),
                i <= n,
                out@ == seq!['['] + name@.subrange(0, i as int),
            decreases n - i,
        {
            out.push(name.get_char(i));
            assert(name@.subrange(0, i as int + 1) =~= name@.subrange(0, i as int).push(name@[i as int]));
            i = i + 1;
        }
        out.push(']');
        assert(name@.subrange(0, n as int) =~= name@);
        assert(out@ =~= bracketed(self.file.name@));
        crate::document::string_of_chars(&out)
    }

    /// The mode indicator: `[VIEW]` or `[EDIT]`, and nothing once the
    /// session is over.
    pub fn mode_label(&self) -> (r: &'static str)
        ensures
            r@ == match self.mode {
                Mode::Edit => "[EDIT]"@,
                Mode::View => "[VIEW]"@,
                Mode::Exit => ""@,
            },
    {
        match self.mode {
            Mode::Edit => "[EDIT]",
            Mode::View => "[VIEW]",
            Mode::Exit => "",
        }
    }

    /// The cursor indicator `[line:column]`: the line counted from one, the
    /// column from zero.
    pub fn position_label(&self) -> (r: String)
        requires
            self.wf(),
        ensures
            r@ == bracketed(decimal(text_cursor(self.file.textarea).0 as nat + 1) + seq![':']
                + decimal(text_cursor(self.file.textarea).1 as nat)),
    {
        let (row, col) = text_cursor_of(&self.file.textarea);
        let mut out: Vec<char> = Vec::new();
        out.push('[');
        decimal_chars(row + 1, &mut out);
        out.push(':');
        decimal_chars(col, &mut out);
        out.push(']');
        assert(out@ =~= bracketed(decimal(row as nat + 1) + seq![':'] + decimal(col as nat)));
        crate::document::string_of_chars(&out)
    }

    /// The border and text are dimmed while the terminal has no focus.
    pub fn border_dimmed(&self) -> (r: bool)
        ensures
            r == !self.is_focused,
    {
        !self.is_focused
    }

    /// The cursor blinks in Edit mode; elsewhere it is shown steady.
    pub fn cursor_blinks(&self) -> (r: bool)
        ensures
            r == (self.mode == Mode::Edit),
    {
        self.mode == Mode::Edit
    }

    /// The message shown for the last save, until the next change of mode.
    pub fn notice_label(&self) -> (r: Option<&'static str>)
        ensures
            match self.notice {
                None => r is None,
                Some(Notice::Saved) => r == Some("File has been saved!"),
                Some(Notice::SaveFailed) => r == Some("The file could not be saved!"),
            },
    {
        match self.notice {
            None => None,
            Some(Notice::Saved) => Some("File has been saved!"),
            Some(Notice::SaveFailed) => Some("The file could not be saved!"),
        }
    }
}

} // verus!
