//! The open document: its path, its display name and its text buffer, with
//! the plain-text format it is read from and saved to.
use vstd::prelude::*;
use vstd::string::StringExecFns;
use crate::textarea::{line_views, new_text, text_lines, text_lines_of, text_wf, Buffer};

verus! {

/// `s` cut at each `'\n'`: one piece more than `s` holds newlines.
pub open spec fn pieces(s: Seq<char>) -> Seq<Seq<char>>
    decreases s.len(),
{
    if s.len() == 0 {
        seq![Seq::<char>::empty()]
    } else {
        let p = pieces(s.drop_last());
        if s.last() == '\n' {
            p.push(Seq::<char>::empty())
        } else {
            p.update(p.len() - 1, p.last().push(s.last()))
        }
    }
}

/// Cutting a text always leaves at least one piece.
pub proof fn lemma_pieces_len(s: Seq<char>)
    ensures
        pieces(s).len() >= 1,
    decreases s.len(),
{
    if s.len() > 0 {
        lemma_pieces_len(s.drop_last());
    }
}

/// The lines of a text: it is cut at each `'\n'`, and a `'\n'` at its very
/// end closes the last line without opening another.
pub open spec fn lines_of(s: Seq<char>) -> Seq<Seq<char>> {
    if s.len() == 0 {
        Seq::empty()
    } else if s.last() == '\n' {
        pieces(s.drop_last())
    } else {
        pieces(s)
    }
}

/// The text saved for `lines`: each line followed by `'\n'`, the last one too.
pub open spec fn text_of(lines: Seq<Seq<char>>) -> Seq<char>
    decreases lines.len(),
{
    if lines.len() == 0 {
        Seq::empty()
    } else {
        text_of(lines.drop_last()) + lines.last() + seq!['\n']
    }
}

/// The buffer a document opens with: the lines of what was read, or one
/// empty line where nothing was read or the text holds no line.
pub open spec fn loaded_lines(content: Option<Seq<char>>) -> Seq<Seq<char>> {
    match content {
        Some(c) => if lines_of(c).len() == 0 { seq![Seq::<char>::empty()] } else { lines_of(c) },
        None => seq![Seq::<char>::empty()],
    }
}

/// No line holds a `'\n'`.
pub open spec fn no_newlines(lines: Seq<Seq<char>>) -> bool {
    forall|i: int, j: int| 0 <= i < lines.len() && 0 <= j < lines[i].len() ==> lines[i][j] != '\n'
}

/// The file stem of a path, as `std::path::Path::file_stem` gives it, where it
/// is valid text.
pub uninterp spec fn stem_of(path: Seq<char>) -> Option<Seq<char>>;

/// The name shown for a path: its file stem, or nothing.
pub open spec fn name_of(path: Seq<char>) -> Seq<char> {
    match stem_of(path) {
        Some(s) => s,
        None => Seq::empty(),
    }
}

/// Cutting `a + b`, where `b` holds no newline, gives the pieces of `a`
/// with `b` added to the last one.
pub proof fn lemma_pieces_append(a: Seq<char>, b: Seq<char>)
    requires
        forall|j: int| 0 <= j < b.len() ==> b[j] != '\n',
    ensures
        pieces(a + b) == pieces(a).update(pieces(a).len() - 1, pieces(a).last() + b),
    decreases b.len(),
{
    lemma_pieces_len(a);
    if b.len() == 0 {
        assert(a + b =~= a);
        assert(pieces(a).last() + b =~= pieces(a).last());
        assert(pieces(a).update(pieces(a).len() - 1, pieces(a).last() + b) =~= pieces(a));
    } else {
        let b0 = b.drop_last();
        lemma_pieces_append(a, b0);
        assert((a + b).drop_last() =~= a + b0);
        assert((a + b).last() == b.last());
        assert(pieces(a).last() + b0 + seq![b.last()] =~= pieces(a).last() + b);
        let p = pieces(a + b0);
        assert(p.last() == pieces(a).last() + b0);
        assert(p.last().push(b.last()) =~= pieces(a).last() + b);
        assert(p.update(p.len() - 1, p.last().push(b.last())) =~= pieces(a).update(
            pieces(a).len() - 1,
            pieces(a).last() + b,
        ));
    }
}

/// Cutting saved text gives back its lines, and one empty piece after the
/// final newline.
pub proof fn lemma_pieces_of_text(lines: Seq<Seq<char>>)
    requires
        no_newlines(lines),
    ensures
        pieces(text_of(lines)) == lines.push(Seq::<char>::empty()),
    decreases lines.len(),
{
    if lines.len() == 0 {
        assert(pieces(text_of(lines)) =~= lines.push(Seq::<char>::empty()));
    } else {
        let init = lines.drop_last();
        let l = lines.last();
        assert(no_newlines(init));
        lemma_pieces_of_text(init);
        let x = text_of(init) + l;
        assert forall|j: int| 0 <= j < l.len() implies l[j] != '\n' by {
            assert(lines[lines.len() - 1] == l);
        }
        lemma_pieces_append(text_of(init), l);
        assert(init.push(Seq::<char>::empty()).last() + l =~= l);
        assert(pieces(x) =~= lines);
        let t = text_of(lines);
        assert(t =~= x.push('\n'));
        assert(t.drop_last() =~= x);
        assert(pieces(t) =~= lines.push(Seq::<char>::empty()));
    }
}

/// No piece of a text holds a newline.
pub proof fn lemma_pieces_no_newlines(s: Seq<char>)
    ensures
        no_newlines(pieces(s)),
    decreases s.len(),
{
    if s.len() > 0 {
        lemma_pieces_no_newlines(s.drop_last());
        lemma_pieces_len(s.drop_last());
    }
}

/// Saving lines that hold no newline and reading the text back gives the
/// same lines.
pub proof fn lemma_lines_of_text(lines: Seq<Seq<char>>)
    requires
        no_newlines(lines),
    ensures
        lines_of(text_of(lines)) == lines,
{
    if lines.len() > 0 {
        let init = lines.drop_last();
        assert(no_newlines(init));
        lemma_pieces_of_text(init);
        let l = lines.last();
        assert forall|j: int| 0 <= j < l.len() implies l[j] != '\n' by {
            assert(lines[lines.len() - 1] == l);
        }
        lemma_pieces_append(text_of(init), l);
        let t = text_of(lines);
        assert(t.drop_last() =~= text_of(init) + l);
        assert(init.push(Seq::<char>::empty()).last() + l =~= l);
        assert(pieces(t.drop_last()) =~= lines);
    } else {
        assert(text_of(lines) =~= Seq::<char>::empty());
    }
}

/// A document opened from any text, saved without edits and opened again
/// from what was saved, holds the same lines.
pub proof fn lemma_save_round_trip(content: Option<Seq<char>>)
    ensures
        loaded_lines(Some(text_of(loaded_lines(content)))) == loaded_lines(content),
{
    let lines = loaded_lines(content);
    match content {
        Some(c) => {
            if c.len() > 0 {
                if c.last() == '\n' {
                    lemma_pieces_no_newlines(c.drop_last());
                } else {
                    lemma_pieces_no_newlines(c);
                }
            }
        },
        None => {},
    }
    assert(no_newlines(lines));
    lemma_lines_of_text(lines);
}

/// Relies on `std::path::Path::file_stem` (and `OsStr::to_str`): the file
/// name of `path` without its extension.
#[verifier::external_body]
fn file_stem(path: &str) -> (r: Option<String>)
    ensures
        match r {
            Some(s) => stem_of(path@) == Some(s@),
            None => stem_of(path@) is None,
        },
{
    std::path::Path::new(path).file_stem().and_then(|s| s.to_str()).map(|s| s.to_string())
}

/// Relies on `String`'s `FromIterator<char>`: a string of the given characters.
#[verifier::external_body]
pub(crate) fn string_of_chars(cs: &Vec<char>) -> (r: String)
    ensures
        r@ == cs@,
{
    cs.iter().collect()
}

/// Cuts a text into its lines, as `lines_of` states.
pub fn split_lines(content: &str) -> (r: Vec<String>)
    ensures
        line_views(r@) == lines_of(content@),
{
    let ghost s = content@;
    let mut done: Vec<String> = Vec::new();
    let mut line: Vec<char> = Vec::new();
    let n: usize = content.unicode_len();
    let mut i: usize = 0;
    assert(s.subrange(0, 0) =~= Seq::<char>::empty());
    assert(line_views(done@).push(line@) =~= pieces(Seq::<char>::empty()));
    while i < n
        invariant
            n == s.len(),
            i <= n,
            content@ == s,
            line_views(done@).push(line@) == pieces(s.subrange(0, i as int)),
        decreases n - i,
    {
        let c = content.get_char(i);
        let ghost t = s.subrange(0, i as int + 1);
        let ghost v = line_views(done@);
        let ghost before = line@;
        assert(t.drop_last() =~= s.subrange(0, i as int));
        assert(t.last() == c);
        if c == '\n' {
            let l = string_of_chars(&line);
            done.push(l);
            line = Vec::new();
            assert(line_views(done@) =~= v.push(before));
            assert(line_views(done@).push(line@) =~= pieces(t));
        } else {
            line.push(c);
            assert(line_views(done@) =~= v);
            let ghost p = pieces(t.drop_last());
            assert(p.last() == before);
            assert(line_views(done@).push(line@) =~= p.update(p.len() - 1, p.last().push(c)));
        }
        i = i + 1;
    }
    assert(s.subrange(0, n as int) =~= s);
    proof {
        lemma_pieces_len(s);
        if n > 0 {
            lemma_pieces_len(s.drop_last());
        }
    }
    let ghost v = line_views(done@);
    let ghost p = pieces(s);
    if line.len() > 0 {
        let ghost last = line@;
        let l = string_of_chars(&line);
        done.push(l);
        assert(line_views(done@) =~= v.push(last));
        assert(v.push(last) =~= p);
        proof {
            assert(p.last() == last);
            assert(last.len() > 0);
            if n == 0 {
                assert(p =~= seq![Seq::<char>::empty()]);
                assert(p.last().len() == 0);
            } else {
                if s.last() == '\n' {
                    assert(p =~= pieces(s.drop_last()).push(Seq::<char>::empty()));
                    assert(p.last().len() == 0);
                }
                assert(lines_of(s) == p);
            }
        }
        assert(line_views(done@) == lines_of(s));
    } else if n > 0 {
        proof {
            if s.last() != '\n' {
                let q = pieces(s.drop_last());
                assert(p.last() =~= q.last().push(s.last()));
            }
        }
        assert(v =~= p.drop_last());
        assert(p.drop_last() =~= pieces(s.drop_last()));
        assert(line_views(done@) == lines_of(s));
    } else {
        assert(v =~= Seq::<Seq<char>>::empty());
    }
    done
}

/// Lays out lines as saved text, as `text_of` states.
pub fn join_lines(lines: &Vec<String>) -> (r: String)
    ensures
        r@ == text_of(line_views(lines@)),
{
    let mut text = String::new();
    let mut i: usize = 0;
    let newline = "\n";
    proof {
        reveal_strlit("\n");
    }
    assert(line_views(lines@).subrange(0, 0) =~= Seq::<Seq<char>>::empty());
    while i < lines.len()
        invariant
            i <= lines.len(),
            newline@ == seq!['\n'],
            text@ == text_of(line_views(lines@).subrange(0, i as int)),
        decreases lines.len() - i,
    {
        text.append(lines[i].as_str());
        text.append(newline);
        let ghost all = line_views(lines@);
        assert(all.subrange(0, i as int + 1).drop_last() =~= all.subrange(0, i as int));
        i = i + 1;
    }
    assert(line_views(lines@).subrange(0, i as int) =~= line_views(lines@));
    text
}

/// The document being edited.
pub struct File {
    /// Where the document is read from and saved to.
    pub path: String,
    /// The label shown in the title bar: the path's file stem.
    pub name: String,
    /// The document's text and cursor.
    pub textarea: Buffer,
}

impl File {
    /// The lines the document holds.
    pub open spec fn view_lines(&self) -> Seq<Seq<char>> {
        text_lines(self.textarea)
    }

    /// The buffer is in a state the text area can reach.
    pub open spec fn wf(&self) -> bool {
        text_wf(self.textarea)
    }

    /// Opens the document at `path`, given what reading it gave: its text, or
    /// `None` where it could not be read (a missing file opens as a blank
    /// document).
    pub fn open(path: String, content: Option<String>) -> (r: File)
        ensures
            r.wf(),
            r.path@ == path@,
            r.name@ == name_of(path@),
            r.view_lines() == loaded_lines(match content { Some(c) => Some(c@), None => None }),
            crate::textarea::text_cursor(r.textarea) == (0usize, 0usize),
            !crate::textarea::text_selecting(r.textarea),
    {
        let lines = match &content {
            Some(c) => split_lines(c.as_str()),
            None => Vec::new(),
        };
        let textarea = new_text(lines);
        let name = match file_stem(path.as_str()) {
            Some(s) => s,
            None => String::new(),
        };
        File { path, name, textarea }
    }

    /// The lines the document holds.
    pub fn lines(&self) -> (r: Vec<String>)
        ensures
            line_views(r@) == self.view_lines(),
    {
        text_lines_of(&self.textarea)
    }

    /// The text that saving writes to `path`: each line followed by a newline.
    pub fn contents(&self) -> (r: String)
        ensures
            r@ == text_of(self.view_lines()),
    {
        let lines = text_lines_of(&self.textarea);
        join_lines(&lines)
    }
}

} // verus!
