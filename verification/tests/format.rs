use logview::log_message::{Fields, LogMessage, StanzaDirection};
use logview::pretty_print::{to_io, to_writer_pretty, FormatError};
use logview::text::{str_eq, str_lt};

fn record(body: &str, direction: Option<StanzaDirection>) -> LogMessage {
    LogMessage {
        timestamp: "2024-01-01T00:00:00Z".to_string(),
        level: "INFO".to_string(),
        fields: Fields { message: body.to_string(), direction },
        target: "conn".to_string(),
        span: None,
        spans: None,
    }
}

#[test]
fn no_direction_renders_plain_text_regardless_of_body() {
    // even a well-formed XML body stays raw without a direction marker
    let m = record("<a><b/></a>", None);
    assert_eq!(m.pretty_printed_xml().unwrap(), "<a><b/></a>");
    let lines = m.highlighted_stanza_xml_text().unwrap();
    for line in &lines {
        for span in &line.spans {
            assert_eq!(span.color, None);
        }
    }
    let joined: String = lines
        .iter()
        .flat_map(|l| l.spans.iter().map(|s| s.content.clone()))
        .collect();
    assert_eq!(joined, "<a><b/></a>");
}

#[test]
fn no_direction_multiline_body_splits_lines() {
    let m = record("one\ntwo\nthree", None);
    let lines = m.highlighted_stanza_xml_text().unwrap();
    assert_eq!(lines.len(), 3);
    assert_eq!(lines[0].spans[0].content, "one\n");
    assert_eq!(lines[1].spans[0].content, "two\n");
    assert_eq!(lines[2].spans[0].content, "three");
    assert_eq!(m.highlighted_stanza_xml().unwrap(), "one\ntwo\nthree");
}

#[test]
fn direction_with_invalid_body_yields_format_error() {
    let m = record("this is not xml <<<", Some(StanzaDirection::In));
    assert!(matches!(m.pretty_printed_xml(), Err(FormatError::Xml(_))));
    assert!(matches!(
        m.highlighted_stanza_xml_text(),
        Err(FormatError::Xml(_))
    ));
    assert!(matches!(
        m.highlighted_stanza_xml(),
        Err(FormatError::Xml(_))
    ));
}

#[test]
fn direction_with_valid_body_is_reindented() {
    let m = record("<iq type='get'><ping/></iq>", Some(StanzaDirection::Out));
    let pretty = m.pretty_printed_xml().unwrap();
    // the canonical form is not the input handed back: it gains indentation
    assert_ne!(pretty, "<iq type='get'><ping/></iq>");
    assert!(pretty.contains('\n'));
    assert!(pretty.contains("<ping"));
    assert!(pretty.starts_with("<iq"));
}

#[test]
fn highlighted_stanza_carries_ansi_escapes() {
    let m = record("<message><body>hi</body></message>", Some(StanzaDirection::In));
    let out = m.highlighted_stanza_xml().unwrap();
    assert!(out.contains('\u{1b}'));
    assert!(out.contains("hi"));
    assert_ne!(out, "<message><body>hi</body></message>");
}

#[test]
fn highlighted_text_carries_colors() {
    let m = record("<presence/>", Some(StanzaDirection::In));
    let lines = m.highlighted_stanza_xml_text().unwrap();
    assert!(!lines.is_empty());
    let any_colored = lines
        .iter()
        .any(|l| l.spans.iter().any(|s| s.color.is_some()));
    assert!(any_colored);
}

#[test]
fn highlighting_preserves_the_canonical_text() {
    // the styled lines carry the canonical form's text verbatim, one styled
    // line per line of it
    let m = record("<iq type='get'><ping/></iq>", Some(StanzaDirection::Out));
    let pretty = m.pretty_printed_xml().unwrap();
    let lines = m.highlighted_stanza_xml_text().unwrap();
    let joined: String = lines
        .iter()
        .flat_map(|l| l.spans.iter().map(|s| s.content.clone()))
        .collect();
    assert_eq!(joined, pretty);
    let line_count = pretty.split_inclusive('\n').filter(|l| !l.is_empty()).count();
    assert_eq!(lines.len(), line_count);
}

#[test]
fn escaped_highlighting_strips_back_to_the_canonical_text() {
    let m = record("<a><b/></a>", Some(StanzaDirection::In));
    let pretty = m.pretty_printed_xml().unwrap();
    let escaped = m.highlighted_stanza_xml().unwrap();
    let mut stripped = String::new();
    let mut rest = escaped.as_str();
    while let Some(pos) = rest.find('\u{1b}') {
        stripped.push_str(&rest[..pos]);
        match rest[pos..].find('m') {
            Some(end) => rest = &rest[pos + end + 1..],
            None => {
                rest = "";
            }
        }
    }
    stripped.push_str(rest);
    assert_eq!(stripped, pretty);
}

#[test]
fn to_writer_pretty_appends_on_success_only() {
    let mut out = String::from("prefix:");
    let n = to_writer_pretty(&mut out, "<a><b/></a>").unwrap();
    assert_eq!(n, "<a><b/></a>".len());
    assert!(out.starts_with("prefix:<a>"));

    let mut untouched = String::from("keep");
    assert!(to_writer_pretty(&mut untouched, "not xml <<<").is_err());
    assert_eq!(untouched, "keep");
}

#[test]
fn to_io_wraps_the_description() {
    let e = to_io("unexpected token".to_string());
    assert_eq!(e, FormatError::Xml("unexpected token".to_string()));
}

#[test]
fn string_comparisons_are_lexicographic() {
    assert!(str_eq("abc", "abc"));
    assert!(!str_eq("abc", "abd"));
    assert!(!str_eq("abc", "ab"));
    assert!(str_lt("abc", "abd"));
    assert!(str_lt("ab", "abc"));
    assert!(!str_lt("abc", "abc"));
    assert!(!str_lt("b", "abc"));
}
