use std::collections::HashMap;

use finnkino::finnkino as feed;
use finnkino::jsonapi::{ErrorBuilder, ErrorLink, ErrorSource, Errors};

#[test]
fn test_can_convert_from_finnkino_error_with_status() {
    let finnkino_error = feed::ErrorBuilder::default().status("some-status").build();
    let json_errors = Errors::from(finnkino_error);
    let expected_errors = Errors {
        errors: vec![ErrorBuilder::default().status("some-status").build()],
    };

    assert_eq!(expected_errors, json_errors);
}

#[test]
fn test_can_convert_from_finnkino_error_with_code() {
    let finnkino_error = feed::ErrorBuilder::default().code("some-code").build();
    let json_errors = Errors::from(finnkino_error);
    let expected_errors = Errors {
        errors: vec![ErrorBuilder::default().code("some-code").build()],
    };

    assert_eq!(expected_errors, json_errors);
}

#[test]
fn test_can_convert_from_finnkino_error_with_title() {
    let finnkino_error = feed::ErrorBuilder::default().title("some-title").build();
    let json_errors = Errors::from(finnkino_error);
    let expected_errors = Errors {
        errors: vec![ErrorBuilder::default().title("some-title").build()],
    };

    assert_eq!(expected_errors, json_errors);
}

#[test]
fn test_can_convert_from_finnkino_error_with_detail() {
    let finnkino_error = feed::ErrorBuilder::default().detail("some-detail").build();
    let json_errors = Errors::from(finnkino_error);
    let expected_errors = Errors {
        errors: vec![ErrorBuilder::default().detail("some-detail").build()],
    };

    assert_eq!(expected_errors, json_errors);
}

#[test]
fn test_can_convert_from_finnkino_error_all_fields() {
    let finnkino_error = feed::ErrorBuilder::default()
        .status("some-status")
        .code("some-code")
        .title("some-title")
        .detail("some-detail")
        .build();
    let json_errors = Errors::from(finnkino_error);
    let expected_error = ErrorBuilder::default()
        .status("some-status")
        .code("some-code")
        .title("some-title")
        .detail("some-detail")
        .build();
    let expected_errors = Errors {
        errors: vec![expected_error],
    };

    assert_eq!(expected_errors, json_errors);
}

#[test]
fn converting_an_empty_error_gives_one_empty_object() {
    let json_errors = Errors::from(feed::ErrorBuilder::default().build());
    assert_eq!(json_errors.errors.len(), 1);
    assert_eq!(json_errors.errors[0], ErrorBuilder::default().build());
    assert!(json_errors.errors[0].member_names().is_empty());
}

#[test]
fn title_only_object_has_only_the_title_member() {
    let error = ErrorBuilder::default().title("Not Found").build();
    assert_eq!(error.member_names(), vec!["title"]);
    assert_eq!(error.title, Some("Not Found".to_string()));
    assert_eq!(error.status, None);
    assert_eq!(error.detail, None);
}

#[test]
fn every_member_set_lists_all_members_in_order() {
    let mut meta = HashMap::new();
    meta.insert("k".to_string(), "v".to_string());
    let error = ErrorBuilder::default()
        .meta(meta.clone())
        .source(ErrorSource { pointer: Some("/data".to_string()), parameter: None })
        .detail("d")
        .title("t")
        .code("c")
        .status("500")
        .links(ErrorLink { about: "https://example.com".to_string() })
        .id("1")
        .build();
    assert_eq!(
        error.member_names(),
        vec!["id", "links", "status", "code", "title", "detail", "source", "meta"]
    );
    assert_eq!(error.meta, Some(meta));
    assert_eq!(error.links, Some(ErrorLink { about: "https://example.com".to_string() }));
}

#[test]
fn a_later_setter_overwrites_an_earlier_one() {
    let error = ErrorBuilder::default().title("first").title("second").build();
    assert_eq!(error.title, Some("second".to_string()));
    let feed_error = feed::ErrorBuilder::default().code("a").code("b").build();
    assert_eq!(feed_error.code, Some("b".to_string()));
}

#[test]
fn status_and_detail_members_leave_out_the_rest() {
    let error = ErrorBuilder::default().detail("x").status("404").build();
    assert_eq!(error.member_names(), vec!["status", "detail"]);
}
