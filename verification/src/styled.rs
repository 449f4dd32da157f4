//! Styled text: the detail rendering of a record's body as a sequence of
//! lines, each a sequence of colored spans of text, plus the plain
//! (unstyled) rendering used for non-protocol records.

use vstd::prelude::*;

verus! {

/// One run of text with an optional foreground color (red, green, blue);
/// no color means an unstyled span.
pub struct TextSpan {
    pub content: String,
    pub color: Option<(u8, u8, u8)>,
}

/// One rendered line of the detail view.
pub struct StyledLine {
    pub spans: Vec<TextSpan>,
}

/// The mathematical value of a `TextSpan`.
pub ghost struct TextSpanView {
    pub content: Seq<char>,
    pub color: Option<(u8, u8, u8)>,
}

impl View for TextSpan {
    type V = TextSpanView;

    open spec fn view(&self) -> TextSpanView {
        TextSpanView { content: self.content@, color: self.color }
    }
}

impl View for StyledLine {
    type V = Seq<TextSpanView>;

    open spec fn view(&self) -> Seq<TextSpanView> {
        self.spans@.map_values(|s: TextSpan| s@)
    }
}

/// The value of a whole rendering: the lines, each as its spans.
pub open spec fn lines_view(lines: Seq<StyledLine>) -> Seq<Seq<TextSpanView>> {
    lines.map_values(|l: StyledLine| l@)
}

/// Text split into lines that keep their `'\n'` terminator, the way the
/// detail view shows it: a break after every newline, no empty final line.
pub open spec fn spec_lines(s: Seq<char>) -> Seq<Seq<char>>
    decreases s.len(),
    via spec_lines_decreases
{
    if s.len() == 0 {
        Seq::empty()
    } else {
        match s.index_of_first('\n') {
            Some(i) => seq![s.subrange(0, i + 1)] + spec_lines(
                s.subrange(i + 1, s.len() as int),
            ),
            None => seq![s],
        }
    }
}

#[via_fn]
proof fn spec_lines_decreases(s: Seq<char>) {
    if s.len() > 0 {
        match s.index_of_first('\n') {
            Some(i) => {
                s.index_of_first_ensures('\n');
            },
            None => {},
        }
    }
}

/// The text a line of spans carries, styling set aside.
pub open spec fn concat_spans(spans: Seq<TextSpanView>) -> Seq<char>
    decreases spans.len(),
{
    if spans.len() == 0 {
        Seq::empty()
    } else {
        spans[0].content + concat_spans(spans.drop_first())
    }
}

/// Every line rendered as a single unstyled span.
pub open spec fn plain_views(lines: Seq<Seq<char>>) -> Seq<Seq<TextSpanView>> {
    lines.map_values(|l: Seq<char>| seq![TextSpanView { content: l, color: None }])
}

/// The unstyled rendering of a raw body: its lines, uncolored.
pub open spec fn spec_plain_rendering(message: Seq<char>) -> Seq<Seq<TextSpanView>> {
    plain_views(spec_lines(message))
}

/// Render a raw body as unstyled plain text, one span per line.
pub fn plain_lines(s: &str) -> (r: Vec<StyledLine>)
    ensures
        lines_view(r@) == spec_plain_rendering(s@),
{
    let n = s.unicode_len();
    let mut out: Vec<StyledLine> = Vec::new();
    let mut p: usize = 0;
    proof {
        assert(s@.subrange(0, n as int) =~= s@);
        assert(lines_view(out@) + plain_views(spec_lines(s@)) =~= plain_views(spec_lines(s@)));
    }
    while p < n
        invariant
            p <= n,
            n == s@.len(),
            spec_plain_rendering(s@) == lines_view(out@) + plain_views(
                spec_lines(s@.subrange(p as int, n as int)),
            ),
        decreases n - p,
    {
        let ghost rest = s@.subrange(p as int, n as int);
        let mut e: usize = p;
        while e < n && s.get_char(e) != '\n'
            invariant
                p <= e <= n,
                n == s@.len(),
                forall|k: int| p <= k < e ==> s@[k] != '\n',
            decreases n - e,
        {
            e = e + 1;
        }
        proof {
            rest.index_of_first_ensures('\n');
            if e < n {
                // the scan stopped on the first newline of the suffix
                assert(rest[e - p] == '\n');
                assert(rest.index_of_first('\n') == Some(e - p as int)) by {
                    if rest.index_of_first('\n') is None {
                        assert(!rest.contains(rest[e - p]));
                    } else {
                        let i = rest.index_of_first('\n')->0;
                        assert(s@[i + p] == '\n');
                    }
                }
            } else {
                // no newline in the suffix
                assert(rest.index_of_first('\n') is None) by {
                    if rest.index_of_first('\n') is Some {
                        let i = rest.index_of_first('\n')->0;
                        assert(s@[i + p] == '\n');
                    }
                }
            }
        }
        let end: usize = if e < n {
            e + 1
        } else {
            n
        };
        let line = s.substring_char(p, end);
        let span = TextSpan { content: line.to_owned(), color: None };
        out.push(StyledLine { spans: vec![span] });
        proof {
            let tail = s@.subrange(end as int, n as int);
            assert(rest.subrange(0, (end - p) as int) =~= s@.subrange(p as int, end as int));
            if e < n {
                assert(rest.subrange((e + 1 - p) as int, rest.len() as int) =~= tail);
            }
            assert(spec_lines(rest) == seq![s@.subrange(p as int, end as int)] + spec_lines(tail));
            assert(lines_view(out@) =~= lines_view(out@.drop_last()).push(out@.last()@));
            assert(out@.last()@ =~= seq![
                TextSpanView { content: s@.subrange(p as int, end as int), color: None },
            ]);
            assert(plain_views(spec_lines(rest)) =~= seq![out@.last()@] + plain_views(
                spec_lines(tail),
            ));
            assert(lines_view(out@) + plain_views(spec_lines(tail)) =~= lines_view(
                out@.drop_last(),
            ) + plain_views(spec_lines(rest)));
        }
        p = end;
    }
    proof {
        assert(s@.subrange(p as int, n as int) =~= Seq::<char>::empty());
        assert(lines_view(out@) + plain_views(spec_lines(s@.subrange(p as int, n as int)))
            =~= lines_view(out@));
    }
    out
}

} // verus!
