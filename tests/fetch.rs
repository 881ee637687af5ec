use finnkino::fetch::{
    body_text, check_status, decoded_areas, is_success, payload_error, status_error_with_reason,
    status_text, text_or_error, transport_error, FetchConfig, PayloadFailure, TransportFailure,
    ACCEPT_XML, FEED_URL,
};
use finnkino::finnkino::{theatre_area, ErrorBuilder, TheatreArea, TheatreAreas};
use finnkino::index;

const BODY: &str = r#"<?xml version="1.0"?>
    <TheatreAreas xmlns:xsd="http://www.w3.org/2001/XMLSchema" xmlns:xsi="http://www.w3.org/2001/XMLSchema-instance">
      <TheatreArea>
        <ID>1029</ID>
        <Name>Valitse alue/teatteri</Name>
      </TheatreArea>
    </TheatreAreas>"#;

#[test]
fn test_get_xml() {
    let xml_result = body_text(BODY.as_bytes().to_vec()).unwrap();

    assert_eq!(xml_result, BODY);
}

#[test]
fn test_get_xml_not_found() {
    let xml_result = check_status(404).unwrap();
    let error = ErrorBuilder::default().status("404").title("Not Found").build();

    assert_eq!(xml_result, error);
}

#[test]
fn test_get_xml_incorrect_scheme() {
    let xml_result = transport_error(TransportFailure::InvalidUrl("UnknownScheme".to_string()));
    let error = ErrorBuilder::default().title("Invalid URL").detail("UnknownScheme").build();

    assert_eq!(xml_result, error);
}

#[test]
fn test_get_xml_timeout() {
    let xml_result = transport_error(TransportFailure::Timeout);
    let error = ErrorBuilder::default()
        .title("Response took too long")
        .detail("Timeout")
        .build();

    assert_eq!(xml_result, error);
}

#[test]
fn test_get_xml_bad_response_body() {
    let xml_result = payload_error(PayloadFailure::Incomplete(Some((
        "InvalidInput".to_string(),
        "invalid gzip header".to_string(),
    ))));
    let error = ErrorBuilder::default()
        .title("Incomplete")
        .code("InvalidInput")
        .detail("invalid gzip header")
        .build();

    assert_eq!(xml_result, error);
}

#[test]
fn test_get_xml_malformed_xml() {
    let body = vec![34u8, 228, 166, 164, 110, 237, 166, 164, 44, 34];
    let xml_result = body_text(body).unwrap_err();
    let error = ErrorBuilder::default()
        .title("Failed to parse XML")
        .detail("invalid utf-8 sequence of 1 bytes from index 5")
        .build();

    assert_eq!(xml_result, error);
}

#[test]
fn index_greets() {
    assert_eq!(index(), "Hello, world!");
}

#[test]
fn feed_config_points_at_the_feed() {
    let config = FetchConfig::feed();
    assert_eq!(config.url, "https://www.finnkino.fi/xml/TheatreAreas");
    assert_eq!(config.url, FEED_URL);
    assert_eq!(config.timeout_secs, 5);
    assert_eq!(ACCEPT_XML, "text/xml, application/xml");
}

#[test]
fn success_statuses_are_exactly_2xx() {
    assert!(!is_success(199));
    assert!(is_success(200));
    assert!(is_success(204));
    assert!(is_success(299));
    assert!(!is_success(300));
    assert!(!is_success(404));
    assert!(check_status(200).is_none());
    assert!(check_status(299).is_none());
}

#[test]
fn status_text_has_three_digits() {
    assert_eq!(status_text(100), "100");
    assert_eq!(status_text(404), "404");
    assert_eq!(status_text(503), "503");
    assert_eq!(status_text(999), "999");
}

#[test]
fn status_without_reason_is_unknown() {
    let error = check_status(599).unwrap();
    let expected = ErrorBuilder::default()
        .status("599")
        .title("Unknown response status")
        .detail("599")
        .build();
    assert_eq!(error, expected);
    assert_eq!(status_error_with_reason(599, None), expected);
}

#[test]
fn status_with_reason_uses_the_phrase() {
    let expected = ErrorBuilder::default().status("503").title("Service Unavailable").build();
    assert_eq!(check_status(503).unwrap(), expected);
    let given = status_error_with_reason(418, Some("I'm a teapot"));
    assert_eq!(given, ErrorBuilder::default().status("418").title("I'm a teapot").build());
    assert_eq!(
        check_status(301).unwrap(),
        ErrorBuilder::default().status("301").title("Moved Permanently").build()
    );
}

#[test]
fn every_transport_failure_has_its_title() {
    let cases = vec![
        (TransportFailure::ConnectFailed("c".to_string()), "Failed to connect to host", "c"),
        (TransportFailure::SendFailed("s".to_string()), "Error sending request", "s"),
        (TransportFailure::ResponseParseFailed("p".to_string()), "Error parsing response", "p"),
        (TransportFailure::Http("h".to_string()), "Http error", "h"),
        (TransportFailure::Http2("h2".to_string()), "Http2 error", "h2"),
        (
            TransportFailure::TunnelNotSupported,
            "Tunnels are not supported for HTTP/2 connection",
            "TunnelNotSupported",
        ),
        (TransportFailure::Body("b".to_string()), "Error sending request body", "b"),
        (TransportFailure::Other("o".to_string()), "Other error", "o"),
    ];
    for (failure, title, detail) in cases {
        let expected = ErrorBuilder::default().title(title).detail(detail).build();
        assert_eq!(transport_error(failure), expected);
    }
}

#[test]
fn every_payload_failure_has_its_title() {
    let cases = vec![
        (PayloadFailure::EncodingCorrupted, "Encoding corrupted", "EncodingCorrupted"),
        (PayloadFailure::Overflow, "Overflow", "Overflow"),
        (PayloadFailure::UnknownLength, "Unknown length", "UnknownLength"),
        (PayloadFailure::Http2Payload("x".to_string()), "Http2 payload error", "x"),
        (PayloadFailure::Io("y".to_string()), "IO error", "y"),
        (PayloadFailure::Other("z".to_string()), "Other error", "z"),
    ];
    for (failure, title, detail) in cases {
        let expected = ErrorBuilder::default().title(title).detail(detail).build();
        assert_eq!(payload_error(failure), expected);
    }
    assert_eq!(
        payload_error(PayloadFailure::Incomplete(None)),
        ErrorBuilder::default().title("Incomplete").build()
    );
}

#[test]
fn utf8_bodies_decode_verbatim() {
    assert_eq!(body_text(Vec::new()).unwrap(), "");
    assert_eq!(body_text("Äänekoski".as_bytes().to_vec()).unwrap(), "Äänekoski");
}

#[test]
fn truncated_utf8_reports_the_index() {
    let error = body_text(vec![b'a', b'b', 0xE2, 0x82]).unwrap_err();
    let expected = ErrorBuilder::default()
        .title("Failed to parse XML")
        .detail("incomplete utf-8 byte sequence from index 2")
        .build();
    assert_eq!(error, expected);
}

#[test]
fn decode_outcome_becomes_text_or_error() {
    assert_eq!(text_or_error(Ok("x".to_string())).unwrap(), "x");
    let error = text_or_error(Err("bad".to_string())).unwrap_err();
    assert_eq!(error, ErrorBuilder::default().title("Failed to parse XML").detail("bad").build());
}

#[test]
fn decoded_feed_keeps_every_entry_in_order() {
    let areas = TheatreAreas {
        theatre_areas: vec![
            theatre_area("1029", "Valitse alue/teatteri"),
            theatre_area("1014", "Pääkaupunkiseutu"),
            theatre_area("1012", "Espoo"),
        ],
    };
    let decoded = decoded_areas(Ok(areas)).unwrap();
    assert_eq!(decoded.len(), 3);
    assert_eq!(decoded[0], TheatreArea { id: "1029".to_string(), name: "Valitse alue/teatteri".to_string() });
    assert_eq!(decoded[1].id, "1014");
    assert_eq!(decoded[1].name, "Pääkaupunkiseutu");
    assert_eq!(decoded[2].id, "1012");
    let empty = decoded_areas(Ok(TheatreAreas { theatre_areas: Vec::new() })).unwrap();
    assert!(empty.is_empty());
}

#[test]
fn parser_failure_is_reported_as_such() {
    let error = decoded_areas(Err("missing field `ID`".to_string())).unwrap_err();
    let expected = ErrorBuilder::default()
        .title("Failed to serialize XML")
        .detail("missing field `ID`")
        .build();
    assert_eq!(error, expected);
}
