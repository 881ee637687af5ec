use finnkino::finnkino::{theatre_area, TheatreArea};
use finnkino::xml::{decode_events, decode_feed, read_events, XmlEvent};

const BODY: &str = r#"<?xml version="1.0"?>
    <TheatreAreas xmlns:xsd="http://www.w3.org/2001/XMLSchema" xmlns:xsi="http://www.w3.org/2001/XMLSchema-instance">
      <TheatreArea>
        <ID>1029</ID>
        <Name>Valitse alue/teatteri</Name>
      </TheatreArea>
    </TheatreAreas>"#;

fn areas(text: &str) -> Vec<TheatreArea> {
    decode_feed(text).unwrap().into_areas()
}

fn refusal(text: &str) -> String {
    decode_feed(text).unwrap_err()
}

#[test]
fn the_served_feed_decodes_to_its_entry() {
    assert_eq!(areas(BODY), vec![theatre_area("1029", "Valitse alue/teatteri")]);
}

#[test]
fn entries_keep_document_order() {
    let text = "<TheatreAreas>\
        <TheatreArea><ID>1014</ID><Name>Pääkaupunkiseutu</Name></TheatreArea>\
        <TheatreArea><ID>1012</ID><Name>Espoo</Name></TheatreArea>\
        <TheatreArea><ID>1002</ID><Name>Helsinki</Name></TheatreArea>\
        </TheatreAreas>";
    assert_eq!(
        areas(text),
        vec![
            theatre_area("1014", "Pääkaupunkiseutu"),
            theatre_area("1012", "Espoo"),
            theatre_area("1002", "Helsinki"),
        ]
    );
}

#[test]
fn an_envelope_without_entries_is_an_empty_list() {
    assert!(areas("<TheatreAreas/>").is_empty());
    assert!(areas("<?xml version=\"1.0\"?>\n<TheatreAreas>\n  </TheatreAreas>\n").is_empty());
}

#[test]
fn field_text_is_copied_verbatim() {
    let text = "<TheatreAreas><TheatreArea><ID> 7 </ID><Name>Tampere: Cine Atlas</Name></TheatreArea></TheatreAreas>";
    assert_eq!(areas(text), vec![theatre_area(" 7 ", "Tampere: Cine Atlas")]);
}

#[test]
fn references_and_cdata_are_resolved() {
    let text = "<TheatreAreas><TheatreArea><ID>&#49;&#x32;</ID>\
        <Name>Kino &amp; Co &lt;&#228;&gt; <![CDATA[a<b]]></Name></TheatreArea></TheatreAreas>";
    assert_eq!(areas(text), vec![theatre_area("12", "Kino & Co <ä> a<b")]);
}

#[test]
fn fields_may_come_in_either_order_and_be_empty() {
    let text = "<TheatreAreas><TheatreArea><Name>Oulu</Name><ID/></TheatreArea>\
        <!-- comment --><TheatreArea><ID>1</ID><Name></Name></TheatreArea></TheatreAreas>";
    assert_eq!(areas(text), vec![theatre_area("", "Oulu"), theatre_area("1", "")]);
}

#[test]
fn a_missing_field_is_refused() {
    let text = "<TheatreAreas><TheatreArea><ID>1</ID></TheatreArea></TheatreAreas>";
    assert_eq!(refusal(text), "missing field `Name`");
    let text = "<TheatreAreas><TheatreArea><Name>x</Name></TheatreArea></TheatreAreas>";
    assert_eq!(refusal(text), "missing field `ID`");
    assert_eq!(refusal("<TheatreAreas><TheatreArea/></TheatreAreas>"), "missing field `ID`");
}

#[test]
fn a_repeated_field_is_refused() {
    let text = "<TheatreAreas><TheatreArea><ID>1</ID><ID>2</ID><Name>x</Name></TheatreArea></TheatreAreas>";
    assert_eq!(refusal(text), "duplicate field `ID`");
}

#[test]
fn wrong_element_names_are_refused() {
    assert_eq!(refusal("<Areas></Areas>"), "unexpected element `Areas`");
    let text = "<TheatreAreas><TheatreArea><ID>1</ID><City>x</City></TheatreArea></TheatreAreas>";
    assert_eq!(refusal(text), "unexpected element `City`");
    let text = "<TheatreAreas><TheatreArea><ID>1<b>2</b></ID></TheatreArea></TheatreAreas>";
    assert_eq!(refusal(text), "unexpected element `b`");
    assert_eq!(refusal("<TheatreAreas/><TheatreAreas/>"), "unexpected element `TheatreAreas`");
}

#[test]
fn stray_text_and_unknown_references_are_refused() {
    assert_eq!(refusal("<TheatreAreas>hello</TheatreAreas>"), "unexpected text");
    let text = "<TheatreAreas><TheatreArea><ID>&nbsp;</ID></TheatreArea></TheatreAreas>";
    assert_eq!(refusal(text), "unknown reference `&nbsp;`");
}

#[test]
fn an_unfinished_document_is_refused() {
    assert_eq!(refusal(""), "unexpected end of document");
    assert_eq!(refusal("<?xml version=\"1.0\"?>"), "unexpected end of document");
}

#[test]
fn malformed_markup_is_refused_with_the_readers_error() {
    let message = refusal("<TheatreAreas><TheatreArea></TheatreAreas>");
    assert!(message.contains("MismatchedEndTag"), "{}", message);
}

#[test]
fn the_reader_ends_with_the_end_of_the_document() {
    let events = read_events("<a>x</a>");
    assert_eq!(events.len(), 4);
    assert!(matches!(&events[0], XmlEvent::Start(n) if n == "a"));
    assert!(matches!(&events[1], XmlEvent::Text(t) if t == "x"));
    assert!(matches!(&events[2], XmlEvent::End(n) if n == "a"));
    assert!(matches!(events[3], XmlEvent::Eof));
}

fn start(n: &str) -> XmlEvent {
    XmlEvent::Start(n.to_string())
}

fn end(n: &str) -> XmlEvent {
    XmlEvent::End(n.to_string())
}

fn text(t: &str) -> XmlEvent {
    XmlEvent::Text(t.to_string())
}

#[test]
fn events_of_a_feed_decode_to_its_entries() {
    let mut events = vec![start("TheatreAreas")];
    for (id, name) in [("1", "Espoo"), ("2", "Vantaa")] {
        events.extend(vec![
            start("TheatreArea"),
            start("ID"),
            text(id),
            end("ID"),
            start("Name"),
            text(name),
            end("Name"),
            end("TheatreArea"),
        ]);
    }
    events.push(end("TheatreAreas"));
    events.push(XmlEvent::Eof);
    let decoded = decode_events(&events).unwrap().into_areas();
    assert_eq!(decoded, vec![theatre_area("1", "Espoo"), theatre_area("2", "Vantaa")]);

    let empty = vec![start("TheatreAreas"), end("TheatreAreas"), XmlEvent::Eof];
    assert!(decode_events(&empty).unwrap().into_areas().is_empty());
}

#[test]
fn events_without_an_end_are_refused() {
    let events = vec![start("TheatreAreas"), end("TheatreAreas")];
    assert_eq!(decode_events(&events).unwrap_err(), "unexpected end of document");
    let events = vec![XmlEvent::Malformed("broken".to_string())];
    assert_eq!(decode_events(&events).unwrap_err(), "broken");
}

#[test]
fn cdata_line_ends_are_normalized() {
    let text = "<TheatreAreas><TheatreArea><ID>1</ID><Name><![CDATA[a\r\nb]]></Name></TheatreArea></TheatreAreas>";
    assert_eq!(areas(text), vec![theatre_area("1", "a\nb")]);
}

#[test]
fn events_with_declaration_white_space_and_split_text_decode() {
    let events = vec![
        XmlEvent::Other,
        text("\n  "),
        start("TheatreAreas"),
        text("\n    "),
        start("TheatreArea"),
        XmlEvent::Other,
        start("ID"),
        text("10"),
        XmlEvent::Reference("#50".to_string()),
        end("ID"),
        text(" "),
        start("Name"),
        text("Kino "),
        XmlEvent::Reference("amp".to_string()),
        text(" Co"),
        end("Name"),
        end("TheatreArea"),
        text("\n"),
        end("TheatreAreas"),
        text("\n"),
        XmlEvent::Eof,
    ];
    let decoded = decode_events(&events).unwrap().into_areas();
    assert_eq!(decoded, vec![theatre_area("102", "Kino & Co")]);
}

#[test]
fn reading_the_served_feed_yields_its_events_in_order() {
    let events = read_events(BODY);
    assert!(matches!(events.last(), Some(XmlEvent::Eof)));
    let starts: Vec<&str> = events
        .iter()
        .filter_map(|e| match e {
            XmlEvent::Start(n) => Some(n.as_str()),
            _ => None,
        })
        .collect();
    assert_eq!(starts, vec!["TheatreAreas", "TheatreArea", "ID", "Name"]);
}
