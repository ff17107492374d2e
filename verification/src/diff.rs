//! Line-granularity diffing of two texts.
//!
//! The diff itself is computed by the `similar` crate; this module gives the
//! lines it returns a verified rendering with the conventional one-character
//! prefixes.

use vstd::prelude::*;

verus! {

/// How one line of a diff relates the two texts.
#[derive(Clone, Copy, PartialEq, Eq, Debug)]
pub enum DiffKind {
    /// The line occurs in both texts.
    Same,
    /// The line occurs only in the expected text.
    Removed,
    /// The line occurs only in the actual text.
    Added,
}

/// The abstract value of a [`DiffLine`].
#[verifier::ext_equal]
pub ghost struct DiffLineView {
    pub kind: DiffKind,
    pub text: Seq<char>,
}

/// One line of a diff: the line's text, newline-terminated, and how it
/// relates the two texts.
#[derive(PartialEq, Eq, Debug)]
pub struct DiffLine {
    /// How the line relates the two texts.
    pub kind: DiffKind,
    /// The line's text, including its terminator.
    pub text: String,
}

impl View for DiffLine {
    type V = DiffLineView;

    open spec fn view(&self) -> DiffLineView {
        DiffLineView { kind: self.kind, text: self.text@ }
    }
}

/// The line diff that the `similar` crate computes for two texts. It depends
/// on the two texts alone.
pub uninterp spec fn line_diff_of(expected: Seq<char>, actual: Seq<char>) -> Seq<DiffLineView>;

/// A text with a final newline appended, unless it is empty or already ends
/// with a line terminator.
pub open spec fn with_final_newline(s: Seq<char>) -> Seq<char> {
    if s.len() == 0 || s.last() == '\n' || s.last() == '\r' {
        s
    } else {
        s.push('\n')
    }
}

/// The concatenated texts of the diff lines drawn from the expected text:
/// those not marked [`DiffKind::Added`].
pub open spec fn expected_lines_text(ls: Seq<DiffLineView>) -> Seq<char>
    decreases ls.len(),
{
    if ls.len() == 0 {
        Seq::empty()
    } else {
        expected_lines_text(ls.drop_last()) + (if ls.last().kind == DiffKind::Added {
            Seq::<char>::empty()
        } else {
            ls.last().text
        })
    }
}

/// The concatenated texts of the diff lines drawn from the actual text:
/// those not marked [`DiffKind::Removed`].
pub open spec fn actual_lines_text(ls: Seq<DiffLineView>) -> Seq<char>
    decreases ls.len(),
{
    if ls.len() == 0 {
        Seq::empty()
    } else {
        actual_lines_text(ls.drop_last()) + (if ls.last().kind == DiffKind::Removed {
            Seq::<char>::empty()
        } else {
            ls.last().text
        })
    }
}

/// Whether the diff of two texts partitions their lines faithfully: the
/// lines not marked added reproduce the expected text in order, and the
/// lines not marked removed the actual text, each up to one final newline
/// appended to a text that does not end with a line terminator.
pub open spec fn diff_reconstructs(expected: Seq<char>, actual: Seq<char>) -> bool {
    &&& expected_lines_text(line_diff_of(expected, actual)) == with_final_newline(expected)
    &&& actual_lines_text(line_diff_of(expected, actual)) == with_final_newline(actual)
}

/// Relies on `similar::TextDiff::from_lines`, `TextDiff::iter_all_changes`
/// and the `Display` of `similar::Change`: the diff of two texts depends on
/// the texts alone; the changes of the diff's ops cover each text's lines
/// exactly once, in order, the expected text's among the equal and deleted
/// changes and the actual text's among the equal and inserted ones; each
/// change carries one line, with a newline appended when the line does not
/// end with `\n` or `\r`.
#[verifier::external_body]
pub fn diff_lines(expected: &str, actual: &str) -> (r: Vec<DiffLine>)
    ensures
        r@.map_values(|l: DiffLine| l@) == line_diff_of(expected@, actual@),
        expected_lines_text(r@.map_values(|l: DiffLine| l@)) == with_final_newline(expected@),
        actual_lines_text(r@.map_values(|l: DiffLine| l@)) == with_final_newline(actual@),
{
    let diff = similar::TextDiff::from_lines(expected, actual);
    let mut lines = Vec::new();
    for change in diff.iter_all_changes() {
        let kind = match change.tag() {
            similar::ChangeTag::Delete => DiffKind::Removed,
            similar::ChangeTag::Insert => DiffKind::Added,
            similar::ChangeTag::Equal => DiffKind::Same,
        };
        lines.push(DiffLine { kind, text: format!("{}", change) });
    }
    lines
}

/// The prefix character that marks a diff line of the given kind.
pub open spec fn spec_prefix_char(kind: DiffKind) -> char {
    match kind {
        DiffKind::Same => ' ',
        DiffKind::Removed => '-',
        DiffKind::Added => '+',
    }
}

/// One rendered diff line: its prefix character followed by its text.
pub open spec fn spec_render_line(l: DiffLineView) -> Seq<char> {
    seq![spec_prefix_char(l.kind)] + l.text
}

/// The rendering of a whole diff, line by line.
pub open spec fn spec_render_lines(ls: Seq<DiffLineView>) -> Seq<char>
    decreases ls.len(),
{
    if ls.len() == 0 {
        Seq::empty()
    } else {
        spec_render_lines(ls.drop_last()) + spec_render_line(ls.last())
    }
}

proof fn lemma_render_lines_take_step(ls: Seq<DiffLineView>, i: int)
    requires
        0 <= i < ls.len(),
    ensures
        spec_render_lines(ls.take(i + 1)) == spec_render_lines(ls.take(i)) + spec_render_line(
            ls[i],
        ),
{
    assert(ls.take(i + 1).drop_last() =~= ls.take(i));
    assert(ls.take(i + 1).last() == ls[i]);
}

fn prefix_str(kind: DiffKind) -> (r: &'static str)
    ensures
        r@ == seq![spec_prefix_char(kind)],
{
    proof {
        reveal_strlit(" ");
        reveal_strlit("-");
        reveal_strlit("+");
    }
    let r = match kind {
        DiffKind::Same => " ",
        DiffKind::Removed => "-",
        DiffKind::Added => "+",
    };
    assert(r@ =~= seq![spec_prefix_char(kind)]);
    r
}

/// Renders a diff as text: each line prefixed with a space, `-` or `+`, the
/// line's own text and terminator kept verbatim.
pub fn render_diff_lines(lines: &Vec<DiffLine>) -> (r: String)
    ensures
        r@ == spec_render_lines(lines@.map_values(|l: DiffLine| l@)),
{
    let ghost views = lines@.map_values(|l: DiffLine| l@);
    let mut s = String::new();
    let mut i: usize = 0;
    while i < lines.len()
        invariant
            i <= lines@.len(),
            views == lines@.map_values(|l: DiffLine| l@),
            s@ == spec_render_lines(views.take(i as int)),
        decreases lines@.len() - i,
    {
        let line = &lines[i];
        s.append(prefix_str(line.kind));
        s.append(line.text.as_str());
        proof {
            lemma_render_lines_take_step(views, i as int);
            assert(views[i as int] == line@);
            assert(s@ =~= spec_render_lines(views.take(i as int + 1)));
        }
        i = i + 1;
    }
    proof {
        assert(views.take(lines@.len() as int) =~= views);
    }
    s
}

} // verus!
