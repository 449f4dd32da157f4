//! Canonical re-serialization of an XML body: the text is re-parsed and
//! re-emitted in indented form, failing closed when it is not well-formed.

use vstd::prelude::*;
use vstd::string::StringExecFns;
use vstd::string::StringSliceAdditionalSpecFns;

verus! {

/// A record body could not be rendered.
#[derive(Clone, PartialEq, Eq, Debug)]
pub enum FormatError {
    /// The body is not well-formed XML; carries the parser's description.
    Xml(String),
    /// The canonical form could not be highlighted.
    Highlight,
}

/// What canonical indented re-serialization returns for an XML text:
/// the indented document, or the parser's description of the fault.
/// A function of the text alone.
pub uninterp spec fn xml_pretty(s: Seq<char>) -> Result<Seq<char>, Seq<char>>;

/// Relies on the `xml` crate's `EventReader` and `EventWriter`: re-parses
/// `s` and re-emits it with two-space indentation, comments kept, empty
/// elements normalized and no document declaration, skipping the document
/// start event; fails on text that is not well-formed XML. Reader and
/// emitter hold no outside state, so the outcome depends on `s` alone.
#[verifier::external_body]
fn xml_reformat(s: &str) -> (r: Result<String, String>)
    ensures
        (r matches Ok(p) ==> xml_pretty(s@) == Ok::<Seq<char>, Seq<char>>(p@)),
        (r matches Err(e) ==> xml_pretty(s@) == Err::<Seq<char>, Seq<char>>(e@)),
{
    let reader = xml::ParserConfig::new().trim_whitespace(true).ignore_comments(false).create_reader(s.as_bytes());
    let mut out: Vec<u8> = Vec::new();
    let mut writer = xml::EmitterConfig::new().perform_indent(true).normalize_empty_elements(true).autopad_comments(false).write_document_declaration(false).create_writer(&mut out);
    for event in reader {
        match event {
            Ok(xml::reader::XmlEvent::StartDocument { .. }) => {},
            Ok(ev) => match ev.as_writer_event().map(|we| writer.write(we)) {
                Some(Err(e)) => return Err(e.to_string()),
                _ => {},
            },
            Err(e) => return Err(e.to_string()),
        }
    }
    String::from_utf8(out).map_err(|e| e.to_string())
}

/// Wrap a re-serialization failure's description as this library's error.
pub fn to_io(e: String) -> (r: FormatError)
    ensures
        r == FormatError::Xml(e),
{
    FormatError::Xml(e)
}

/// Re-serialize the XML text `buf` into canonical indented form and append
/// it to `writer`; fails closed, leaving `writer` untouched, when `buf` is
/// not well-formed. Returns the byte length of the input on success.
pub fn to_writer_pretty(writer: &mut String, buf: &str) -> (r: Result<usize, FormatError>)
    ensures
        r is Ok <==> xml_pretty(buf@) is Ok,
        (r matches Ok(n) ==> final(writer)@ == old(writer)@ + xml_pretty(buf@)->Ok_0 && n
            == buf.spec_bytes().len() as usize),
        (r matches Err(e) ==> final(writer)@ == old(writer)@ && (e matches FormatError::Xml(d)
            && d@ == xml_pretty(buf@)->Err_0)),
{
    match xml_reformat(buf) {
        Ok(p) => {
            writer.append(p.as_str());
            Ok(buf.len())
        },
        Err(e) => Err(to_io(e)),
    }
}

} // verus!
