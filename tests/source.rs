use quick_xml::events::Event;
use quick_xml::{Reader, XmlVersion};
use rss_source::extract::{element_text, find_attribute, resolve_reference, Attribute, XmlError, XmlEvent};
use rss_source::source::Source;

fn attr(key: &str, value: &str) -> Option<Attribute> {
    Some(Attribute { key: key.to_string(), value: Some(value.to_string()) })
}

fn text(t: &str) -> XmlEvent {
    XmlEvent::Text(t.to_string())
}

fn end() -> XmlEvent {
    XmlEvent::End("source".to_string())
}

fn source(url: &str, title: Option<&str>) -> Source {
    let mut s = Source::default();
    s.set_url(url.to_string());
    s.set_title(title.map(|t| t.to_string()));
    s
}

/// Splits a document that starts with a start tag into that tag's attributes
/// and the events that follow it, up to the end of the document.
fn split_document(xml: &str) -> (Vec<Option<Attribute>>, Vec<XmlEvent>) {
    let mut reader = Reader::from_str(xml);
    let attrs = match reader.read_event().unwrap() {
        Event::Start(s) => s
            .attributes()
            .with_checks(false)
            .map(|a| match a {
                Ok(a) => Some(Attribute {
                    key: a.key.into_inner().to_string(),
                    value: a.normalized_value(XmlVersion::Implicit1_0).ok().map(|v| v.into_owned()),
                }),
                Err(_) => None,
            })
            .collect(),
        other => panic!("expected a start tag, got {:?}", other),
    };
    let mut evs = Vec::new();
    loop {
        let ev = match reader.read_event() {
            Ok(Event::Start(e)) => XmlEvent::Start(e.name().into_inner().to_string()),
            Ok(Event::Empty(e)) => XmlEvent::Empty(e.name().into_inner().to_string()),
            Ok(Event::End(e)) => XmlEvent::End(e.name().into_inner().to_string()),
            Ok(Event::Text(t)) => XmlEvent::Text(t.xml10_content().into_owned()),
            Ok(Event::CData(c)) => XmlEvent::CData(c.xml10_content().into_owned()),
            Ok(Event::GeneralRef(r)) => XmlEvent::Ref(r.into_inner().into_owned()),
            Ok(Event::Eof) => XmlEvent::Eof,
            Ok(_) => XmlEvent::Other,
            Err(_) => XmlEvent::Malformed,
        };
        let stop = matches!(ev, XmlEvent::Eof | XmlEvent::Malformed);
        evs.push(ev);
        if stop {
            break;
        }
    }
    (attrs, evs)
}

fn read_document(xml: &str) -> Result<Source, XmlError> {
    let (attrs, evs) = split_document(xml);
    Source::from_xml(&attrs, &evs, 0).map(|(s, _)| s)
}

#[test]
fn default_source_is_empty() {
    let s = Source::default();
    assert_eq!(s.url(), "");
    assert_eq!(s.title(), None);
}

#[test]
fn url_accessors() {
    let mut s = Source::default();
    s.set_url("http://example.com".to_string());
    assert_eq!(s.url(), "http://example.com");
    assert_eq!(s.title(), None);
}

#[test]
fn title_accessors() {
    let mut s = Source::default();
    s.set_title(Some("Source Title".to_string()));
    assert_eq!(s.title(), Some("Source Title"));
    s.set_title(None);
    assert_eq!(s.title(), None);
}

#[test]
fn equality_is_by_fields() {
    assert!(source("a", Some("t")) == source("a", Some("t")));
    assert!(source("a", Some("t")) != source("a", None));
    assert!(source("a", Some("")) != source("a", None));
    assert!(source("a", None) != source("b", None));
    assert!(source("a", Some("t")).clone() == source("a", Some("t")));
}

#[test]
fn markup_with_title() {
    let s = source("http://example.com", Some("Example"));
    assert_eq!(s.to_xml(), "<source url=\"http://example.com\">Example</source>");
}

#[test]
fn markup_without_title() {
    let s = source("http://example.com", None);
    assert_eq!(s.to_xml(), "<source url=\"http://example.com\"></source>");
}

#[test]
fn markup_with_empty_url() {
    assert_eq!(source("", None).to_xml(), "<source url=\"\"></source>");
}

#[test]
fn markup_escapes_reserved_characters() {
    let s = source("http://e.com/?a=1&b=\"2\"", Some("<tag> & \"quote\""));
    assert_eq!(
        s.to_xml(),
        "<source url=\"http://e.com/?a=1&amp;b=&quot;2&quot;\">&lt;tag&gt; &amp; &quot;quote&quot;</source>"
    );
}

#[test]
fn escaped_title_reads_back_exactly() {
    let original = source("u", Some("<tag> & \"quote\""));
    let back = read_document(&original.to_xml()).unwrap();
    assert_eq!(back.title(), Some("<tag> & \"quote\""));
    assert!(back == original);
}

#[test]
fn markup_round_trips_through_a_parser() {
    for s in [
        source("http://example.com", Some("Example")),
        source("http://example.com", None),
        source("", None),
        source("", Some(" ")),
        source("a'b\"c<d>&e", Some("x\ry &#38; z")),
    ] {
        let back = read_document(&s.to_xml()).unwrap();
        assert!(back == s, "{:?} / {:?}", back.url(), back.title());
    }
}

#[test]
fn element_round_trip() {
    for s in [
        source("http://example.com", Some("Example")),
        source("http://example.com", None),
        source("", None),
        source("", Some("")),
    ] {
        let el = s.to_element();
        assert_eq!(el.name, "source");
        let (back, next) = Source::from_xml(&el.attributes, &el.content, 0).unwrap();
        assert!(back == s);
        assert_eq!(next, el.content.len());
    }
}

#[test]
fn element_name_is_fixed() {
    for s in [source("", None), source("x", Some("source2")), source("item", Some("channel"))] {
        assert_eq!(s.to_element().name, "source");
        assert!(s.to_xml().starts_with("<source url=\""));
        assert!(s.to_xml().ends_with("</source>"));
    }
}

#[test]
fn missing_url_reads_as_empty() {
    let attrs = vec![attr("href", "x")];
    let (s, _) = Source::from_xml(&attrs, &vec![text("t"), end()], 0).unwrap();
    assert_eq!(s.url(), "");
    assert_eq!(s.title(), Some("t"));
    let s = read_document("<source>t</source>").unwrap();
    assert_eq!(s.url(), "");
}

#[test]
fn immediately_closed_element_has_no_title() {
    let s = read_document("<source url=\"u\"></source>").unwrap();
    assert_eq!(s.url(), "u");
    assert_eq!(s.title(), None);
}

#[test]
fn whitespace_title_is_present() {
    let s = read_document("<source url=\"u\"> </source>").unwrap();
    assert_eq!(s.title(), Some(" "));
    let (s, _) = Source::from_xml(&vec![attr("url", "u")], &vec![text(" "), end()], 0).unwrap();
    assert_eq!(s.title(), Some(" "));
}

#[test]
fn first_url_attribute_wins() {
    let s = read_document("<source url=\"a\" url=\"b\">t</source>").unwrap();
    assert_eq!(s.url(), "a");
    assert_eq!(s.title(), Some("t"));
    let attrs = vec![None, attr("url", "a"), attr("url", "b")];
    let (s, _) = Source::from_xml(&attrs, &vec![end()], 0).unwrap();
    assert_eq!(s.url(), "a");
}

#[test]
fn malformed_other_attributes_are_skipped() {
    let attrs = vec![None, Some(Attribute { key: "href".to_string(), value: None }), attr("url", "a")];
    assert_eq!(find_attribute(&attrs, &"url".to_string()), Ok(Some("a".to_string())));
}

#[test]
fn undecodable_url_attribute_is_an_error() {
    let attrs = vec![Some(Attribute { key: "url".to_string(), value: None }), attr("url", "b")];
    assert_eq!(find_attribute(&attrs, &"url".to_string()), Err(XmlError::BadAttributeValue));
    assert!(matches!(Source::from_xml(&attrs, &vec![end()], 0), Err(XmlError::BadAttributeValue)));
    assert!(matches!(read_document("<source url=\"&bogus;\"></source>"), Err(XmlError::BadAttributeValue)));
}

#[test]
fn unclosed_element_is_rejected() {
    let attrs = vec![attr("url", "u")];
    assert!(matches!(Source::from_xml(&attrs, &vec![text("t")], 0), Err(XmlError::UnexpectedEof)));
    assert!(matches!(
        Source::from_xml(&attrs, &vec![text("t"), XmlEvent::Eof], 0),
        Err(XmlError::UnexpectedEof)
    ));
    assert!(read_document("<source url=\"u\">title").is_err());
}

#[test]
fn malformed_content_is_rejected() {
    let attrs = vec![attr("url", "u")];
    let evs = vec![text("t"), XmlEvent::Malformed, end()];
    assert!(matches!(Source::from_xml(&attrs, &evs, 0), Err(XmlError::Malformed)));
    assert!(read_document("<source url=\"u\">t</other></source>").is_err());
}

#[test]
fn unknown_reference_is_rejected() {
    let evs = vec![text("a"), XmlEvent::Ref("bogus".to_string()), end()];
    assert_eq!(element_text(&evs, 0), Err(XmlError::BadReference));
}

#[test]
fn text_pieces_are_joined() {
    let evs = vec![
        text("a"),
        XmlEvent::Ref("lt".to_string()),
        XmlEvent::CData("b".to_string()),
        XmlEvent::Ref("#x26".to_string()),
        XmlEvent::Other,
        text("c"),
        end(),
        XmlEvent::Eof,
    ];
    assert_eq!(element_text(&evs, 0), Ok((Some("a<b&c".to_string()), 7)));
}

#[test]
fn child_elements_are_drained() {
    let evs = vec![
        XmlEvent::Start("b".to_string()),
        text("in"),
        XmlEvent::Start("i".to_string()),
        XmlEvent::End("i".to_string()),
        XmlEvent::End("b".to_string()),
        XmlEvent::Empty("br".to_string()),
        text("out"),
        end(),
        text("after"),
    ];
    assert_eq!(element_text(&evs, 0), Ok((Some("out".to_string()), 8)));
    let s = read_document("<source url=\"u\"><b>in</b>out</source>").unwrap();
    assert_eq!(s.title(), Some("out"));
}

#[test]
fn reading_starts_at_the_given_index() {
    let evs = vec![text("skipped"), end(), text("t"), end()];
    let (s, next) = Source::from_xml(&vec![], &evs, 2).unwrap();
    assert_eq!(s.title(), Some("t"));
    assert_eq!(next, 4);
}

#[test]
fn references_resolve() {
    assert_eq!(resolve_reference("lt"), Some("<".to_string()));
    assert_eq!(resolve_reference("gt"), Some(">".to_string()));
    assert_eq!(resolve_reference("amp"), Some("&".to_string()));
    assert_eq!(resolve_reference("apos"), Some("'".to_string()));
    assert_eq!(resolve_reference("quot"), Some("\"".to_string()));
    assert_eq!(resolve_reference("#38"), Some("&".to_string()));
    assert_eq!(resolve_reference("#x41"), Some("A".to_string()));
    assert_eq!(resolve_reference("#0"), None);
    assert_eq!(resolve_reference("#xZZ"), None);
    assert_eq!(resolve_reference("nbsp"), None);
}
