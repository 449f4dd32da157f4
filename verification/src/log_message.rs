//! The log record model: one parsed unit of the log source, optionally
//! representing a directional protocol message, tagged with zero or more
//! spans.

use vstd::prelude::*;
use crate::highlight::{ansi_highlight_xml, highlight_xml_text, strip_ansi, xml_ansi_highlight,
    xml_styled_lines};
use crate::pretty_print::{FormatError, to_writer_pretty, xml_pretty};
use crate::styled::{StyledLine, concat_spans, lines_view, plain_lines, spec_lines,
    spec_plain_rendering};

verus! {

/// A logical tag grouping related records; a name-only value.
pub struct Span {
    pub name: String,
}

/// Whether a protocol message was received or sent.
#[derive(Clone, Copy, PartialEq, Eq, Structural, Debug)]
pub enum StanzaDirection {
    In,
    Out,
}

/// The per-record payload: the raw body text and, for protocol transcript
/// lines, the direction marker.
pub struct Fields {
    pub message: String,
    pub direction: Option<StanzaDirection>,
}

/// One immutable record of the log source.
pub struct LogMessage {
    pub timestamp: String,
    pub level: String,
    pub fields: Fields,
    pub target: String,
    pub span: Option<Span>,
    pub spans: Option<Vec<Span>>,
}

/// The mathematical value of a `LogMessage`: every field as a plain
/// sequence-of-characters value.
pub ghost struct LogMessageView {
    pub timestamp: Seq<char>,
    pub level: Seq<char>,
    pub message: Seq<char>,
    pub direction: Option<StanzaDirection>,
    pub target: Seq<char>,
    pub span: Option<Seq<char>>,
    pub spans: Option<Seq<Seq<char>>>,
}

impl View for Span {
    type V = Seq<char>;

    open spec fn view(&self) -> Seq<char> {
        self.name@
    }
}

impl View for Fields {
    type V = (Seq<char>, Option<StanzaDirection>);

    open spec fn view(&self) -> (Seq<char>, Option<StanzaDirection>) {
        (self.message@, self.direction)
    }
}

impl View for LogMessage {
    type V = LogMessageView;

    open spec fn view(&self) -> LogMessageView {
        LogMessageView {
            timestamp: self.timestamp@,
            level: self.level@,
            message: self.fields.message@,
            direction: self.fields.direction,
            target: self.target@,
            span: match self.span {
                Some(s) => Some(s@),
                None => None,
            },
            spans: match self.spans {
                Some(ss) => Some(ss@.map_values(|s: Span| s@)),
                None => None,
            },
        }
    }
}

impl LogMessageView {
    /// Whether this record carries the span named `name`.
    pub open spec fn has_span(self, name: Seq<char>) -> bool {
        match self.spans {
            Some(ss) => exists|i: int| 0 <= i < ss.len() && ss[i] == name,
            None => false,
        }
    }
}

impl Clone for Span {
    fn clone(&self) -> (r: Self)
        ensures
            r@ == self@,
    {
        Span { name: self.name.clone() }
    }
}

impl Clone for Fields {
    fn clone(&self) -> (r: Self)
        ensures
            r@ == self@,
    {
        Fields { message: self.message.clone(), direction: self.direction }
    }
}

/// An element-wise copy of a span list, equal to the original in view.
fn clone_spans(spans: &Vec<Span>) -> (r: Vec<Span>)
    ensures
        r@.map_values(|s: Span| s@) == spans@.map_values(|s: Span| s@),
{
    let mut out: Vec<Span> = Vec::new();
    let mut i: usize = 0;
    while i < spans.len()
        invariant
            i <= spans@.len(),
            out@.map_values(|s: Span| s@) == spans@.subrange(0, i as int).map_values(
                |s: Span| s@,
            ),
        decreases spans@.len() - i,
    {
        out.push(spans[i].clone());
        i = i + 1;
        assert(spans@.subrange(0, i as int).map_values(|s: Span| s@) =~= spans@.subrange(
            0,
            i - 1,
        ).map_values(|s: Span| s@).push(spans@[i - 1]@));
    }
    assert(spans@.subrange(0, spans@.len() as int) =~= spans@);
    out
}

impl Clone for LogMessage {
    fn clone(&self) -> (r: Self)
        ensures
            r@ == self@,
    {
        let span: Option<Span> = match &self.span {
            Some(s) => Some(s.clone()),
            None => None,
        };
        let spans: Option<Vec<Span>> = match &self.spans {
            Some(ss) => Some(clone_spans(ss)),
            None => None,
        };
        LogMessage {
            timestamp: self.timestamp.clone(),
            level: self.level.clone(),
            fields: self.fields.clone(),
            target: self.target.clone(),
            span,
            spans,
        }
    }
}

impl LogMessage {
    /// The canonical indented form of a protocol body. A record with no
    /// direction marker is not a protocol line: its raw body is returned
    /// unchanged. With a direction, re-serialization fails closed on a body
    /// that is not well-formed XML.
    pub fn pretty_printed_xml(&self) -> (r: Result<String, FormatError>)
        ensures
            self.fields.direction is None ==> (r matches Ok(s) && s@ == self.fields.message@),
            self.fields.direction is Some ==> match xml_pretty(self.fields.message@) {
                Ok(p) => r matches Ok(s) && s@ == p,
                Err(m) => r matches Err(e) && (e matches FormatError::Xml(d) && d@ == m),
            },
    {
        if self.fields.direction.is_none() {
            return Ok(self.fields.message.clone());
        }
        let mut buf = String::new();
        match to_writer_pretty(&mut buf, self.fields.message.as_str()) {
            Ok(_) => Ok(buf),
            Err(e) => Err(e),
        }
    }

    /// The protocol body highlighted as one ANSI-escaped terminal string;
    /// a record with no direction marker is returned as its raw body.
    /// Highlighting changes only styling: stripping the styling sequences
    /// from the result leaves exactly the canonical form, whenever that form
    /// holds no escape character of its own.
    pub fn highlighted_stanza_xml(&self) -> (r: Result<String, FormatError>)
        ensures
            self.fields.direction is None ==> (r matches Ok(s) && s@ == self.fields.message@),
            self.fields.direction is Some ==> match xml_pretty(self.fields.message@) {
                Err(m) => r matches Err(e) && (e matches FormatError::Xml(d) && d@ == m),
                Ok(p) => match xml_ansi_highlight(p) {
                    Some(t) => r matches Ok(s) && s@ == t && ((forall|i: int|
                        0 <= i < p.len() ==> p[i] != '\u{1b}') ==> strip_ansi(s@) == p),
                    None => r == Err::<String, FormatError>(FormatError::Highlight),
                },
            },
    {
        if self.fields.direction.is_none() {
            return Ok(self.fields.message.clone());
        }
        let xml = match self.pretty_printed_xml() {
            Ok(x) => x,
            Err(e) => {
                return Err(e);
            },
        };
        match ansi_highlight_xml(xml.as_str()) {
            Some(t) => Ok(t),
            None => Err(FormatError::Highlight),
        }
    }

    /// The detail rendering of this record. With no direction marker the
    /// body is rendered as unstyled plain text, regardless of its content.
    /// With a direction, the body is re-serialized and highlighted, failing
    /// closed when it is not valid structured content; the styled lines then
    /// carry the canonical form's text verbatim, one styled line per line of
    /// it, so their count drives the scroll bound.
    pub fn highlighted_stanza_xml_text(&self) -> (r: Result<Vec<StyledLine>, FormatError>)
        ensures
            self.fields.direction is None ==> (r matches Ok(ls) && lines_view(ls@)
                == spec_plain_rendering(self.fields.message@)),
            self.fields.direction is Some ==> match xml_pretty(self.fields.message@) {
                Err(m) => r matches Err(e) && (e matches FormatError::Xml(d) && d@ == m),
                Ok(p) => match xml_styled_lines(p) {
                    Some(views) => r matches Ok(ls) && lines_view(ls@) == views && views.len()
                        == spec_lines(p).len() && (forall|i: int|
                        0 <= i < views.len() ==> concat_spans(#[trigger] views[i]) == spec_lines(
                            p,
                        )[i]),
                    None => r == Err::<Vec<StyledLine>, FormatError>(FormatError::Highlight),
                },
            },
    {
        if self.fields.direction.is_none() {
            return Ok(plain_lines(self.fields.message.as_str()));
        }
        let xml = match self.pretty_printed_xml() {
            Ok(x) => x,
            Err(e) => {
                return Err(e);
            },
        };
        match highlight_xml_text(xml.as_str()) {
            Some(ls) => Ok(ls),
            None => Err(FormatError::Highlight),
        }
    }
}

} // verus!
