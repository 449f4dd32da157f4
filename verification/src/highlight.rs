//! Lexical highlighting of a canonical XML body, as an escaped terminal
//! string or as styled lines for the detail view. Highlighting changes only
//! styling, never text: the contracts tie the output's text back to the
//! input.

use vstd::prelude::*;
use crate::styled::{StyledLine, TextSpan, TextSpanView, concat_spans, lines_view, spec_lines};

verus! {

/// What ANSI-escaped highlighting returns for an XML text, or nothing when
/// the highlighter cannot process it. A function of the text alone.
pub uninterp spec fn xml_ansi_highlight(s: Seq<char>) -> Option<Seq<char>>;

/// What highlighting into styled lines returns for an XML text, or nothing
/// when the highlighter cannot process it. A function of the text alone.
pub uninterp spec fn xml_styled_lines(s: Seq<char>) -> Option<Seq<Seq<TextSpanView>>>;

/// Text with every terminal styling sequence removed: an escape character
/// opens a sequence that runs through its first `m`; everything else is the
/// text itself.
pub open spec fn strip_ansi(s: Seq<char>) -> Seq<char>
    decreases s.len(),
    via strip_ansi_decreases
{
    if s.len() == 0 {
        Seq::empty()
    } else if s[0] == '\u{1b}' {
        match s.index_of_first('m') {
            Some(i) => strip_ansi(s.subrange(i + 1, s.len() as int)),
            None => Seq::empty(),
        }
    } else {
        seq![s[0]] + strip_ansi(s.drop_first())
    }
}

#[via_fn]
proof fn strip_ansi_decreases(s: Seq<char>) {
    if s.len() > 0 && s[0] == '\u{1b}' {
        match s.index_of_first('m') {
            Some(i) => {
                s.index_of_first_ensures('m');
            },
            None => {},
        }
    }
}

/// Relies on syntect's `HighlightLines` over the bundled XML syntax and the
/// bundled `base16-ocean.dark` theme, escaped by `as_24_bit_terminal_escaped`.
/// Syntax and theme are compiled-in defaults, so the outcome depends on `s`
/// alone; `None` when the defaults lack an XML entry or a line fails to
/// highlight. The fragments of each highlighted line concatenate back to
/// that line, and the escape formatter writes each styling sequence as an
/// escape character through its first `m` with the fragment text verbatim
/// and no trailing reset — so on text that itself holds no escape character,
/// stripping the styling sequences recovers the input exactly.
#[verifier::external_body]
pub(crate) fn ansi_highlight_xml(s: &str) -> (r: Option<String>)
    ensures
        (r matches Some(t) ==> xml_ansi_highlight(s@) == Some(t@) && ((forall|i: int|
            0 <= i < s@.len() ==> s@[i] != '\u{1b}') ==> strip_ansi(t@) == s@)),
        (r is None ==> xml_ansi_highlight(s@) is None),
{
    let ss = syntect::parsing::SyntaxSet::load_defaults_newlines();
    let ts = syntect::highlighting::ThemeSet::load_defaults();
    let syntax = ss.find_syntax_by_extension("xml")?;
    let mut hl = syntect::easy::HighlightLines::new(syntax, ts.themes.get("base16-ocean.dark")?);
    let mut buf = String::new();
    for line in syntect::util::LinesWithEndings::from(s) {
        let ranges = hl.highlight_line(line, &ss).ok()?;
        buf.push_str(&syntect::util::as_24_bit_terminal_escaped(&ranges[..], true));
    }
    Some(buf)
}

/// Relies on the same syntect pipeline, keeping each highlighted fragment as
/// its text and foreground color instead of escaping it. The line iterator
/// splits after every newline, keeping endings and dropping no text, and the
/// fragments of each line concatenate back to that line — so the output has
/// one styled line per input line and carries the input's text unchanged.
#[verifier::external_body]
pub(crate) fn highlight_xml_text(s: &str) -> (r: Option<Vec<StyledLine>>)
    ensures
        (r matches Some(ls) ==> xml_styled_lines(s@) == Some(lines_view(ls@)) && lines_view(
            ls@,
        ).len() == spec_lines(s@).len() && (forall|i: int|
            0 <= i < lines_view(ls@).len() ==> concat_spans(#[trigger] lines_view(ls@)[i])
                == spec_lines(s@)[i])),
        (r is None ==> xml_styled_lines(s@) is None),
{
    let ss = syntect::parsing::SyntaxSet::load_defaults_newlines();
    let ts = syntect::highlighting::ThemeSet::load_defaults();
    let syntax = ss.find_syntax_by_extension("xml")?;
    let mut hl = syntect::easy::HighlightLines::new(syntax, ts.themes.get("base16-ocean.dark")?);
    let mut lines: Vec<StyledLine> = Vec::new();
    for line in syntect::util::LinesWithEndings::from(s) {
        let spans = hl.highlight_line(line, &ss).ok()?.into_iter().map(
            |(st, txt)| TextSpan {
                content: txt.to_string(),
                color: Some((st.foreground.r, st.foreground.g, st.foreground.b)),
            },
        ).collect();
        lines.push(StyledLine { spans });
    }
    Some(lines)
}

} // verus!
