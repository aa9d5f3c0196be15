//! Classification of compiler output into the lines worth showing, with the
//! style each is shown in.
use vstd::prelude::*;
use crate::text::{lines, lines_of, seq_contains, str_contains};

verus! {

/// How a line of compiler output is shown.
#[derive(Clone, Copy, Debug, PartialEq, Eq, Structural)]
pub enum LineStyle {
    /// An error line (`: error:` or `error[`).
    Error,
    /// A warning line (`: warning:`).
    Warning,
    /// A note line (`: note:`).
    Note,
    /// A source excerpt or a pointer under it (`|` or `^`).
    Snippet,
}

/// One line of compiler output that is shown, and its style.
#[derive(Debug)]
pub struct StyledLine {
    pub style: LineStyle,
    pub text: String,
}

impl View for StyledLine {
    type V = (LineStyle, Seq<char>);

    open spec fn view(&self) -> (LineStyle, Seq<char>) {
        (self.style, self.text@)
    }
}

/// The style of a line, or `None` for a line that is not shown: an empty line,
/// or one that holds none of the markers.
pub open spec fn line_style(line: Seq<char>) -> Option<LineStyle> {
    if line.len() == 0 {
        None
    } else if seq_contains(line, ": error:"@) || seq_contains(line, "error["@) {
        Some(LineStyle::Error)
    } else if seq_contains(line, ": warning:"@) {
        Some(LineStyle::Warning)
    } else if seq_contains(line, ": note:"@) {
        Some(LineStyle::Note)
    } else if seq_contains(line, "|"@) || seq_contains(line, "^"@) {
        Some(LineStyle::Snippet)
    } else {
        None
    }
}

/// The shown lines among `lines`, in order, each with its style.
pub open spec fn styled_lines(lines: Seq<Seq<char>>) -> Seq<(LineStyle, Seq<char>)>
    decreases lines.len(),
{
    if lines.len() == 0 {
        seq![]
    } else {
        let front = styled_lines(lines.drop_last());
        match line_style(lines.last()) {
            Some(style) => front.push((style, lines.last())),
            None => front,
        }
    }
}

/// The style in which one line of compiler output is shown, if it is shown.
pub fn line_style_of(line: &str) -> (res: Option<LineStyle>)
    ensures
        res == line_style(line@),
{
    if line.unicode_len() == 0 {
        None
    } else if str_contains(line, ": error:") || str_contains(line, "error[") {
        Some(LineStyle::Error)
    } else if str_contains(line, ": warning:") {
        Some(LineStyle::Warning)
    } else if str_contains(line, ": note:") {
        Some(LineStyle::Note)
    } else if str_contains(line, "|") || str_contains(line, "^") {
        Some(LineStyle::Snippet)
    } else {
        None
    }
}

/// The lines of a compiler's output that are shown, in order, each with the
/// style it is shown in; the other lines are dropped.
pub fn parse_compiler_output(output: &str) -> (res: Vec<StyledLine>)
    ensures
        res@.map_values(|l: StyledLine| l@) == styled_lines(lines_of(output@)),
{
    let all = lines(output);
    let ghost ls = lines_of(output@);
    let n = all.len();
    let mut res: Vec<StyledLine> = Vec::new();
    for i in 0..n
        invariant
            n == all@.len(),
            all.deep_view() == ls,
            res@.map_values(|l: StyledLine| l@) == styled_lines(ls.take(i as int)),
    {
        let line = &all[i];
        assert(line@ == ls[i as int]);
        assert(ls.take(i + 1).drop_last() =~= ls.take(i as int));
        let ghost before = res@;
        match line_style_of(line.as_str()) {
            Some(style) => {
                res.push(StyledLine { style, text: line.clone() });
                assert(res@.map_values(|l: StyledLine| l@) =~= before.map_values(
                    |l: StyledLine| l@,
                ).push((style, line@)));
            },
            None => {},
        }
    }
    assert(ls.take(n as int) =~= ls);
    res
}

} // verus!
