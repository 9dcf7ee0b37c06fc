use cardgraph::coerce::coerce_integer;
use cardgraph::open_graph::Locale;
use cardgraph::{MetaData, ParseError};

#[test]
fn integer_round_trips() {
    assert_eq!(coerce_integer("0").unwrap(), 0);
    assert_eq!(coerce_integer("7").unwrap(), 7);
    assert_eq!(coerce_integer("10").unwrap(), 10);
    assert_eq!(coerce_integer("007").unwrap(), 7);
    assert_eq!(coerce_integer("+42").unwrap(), 42);
    assert_eq!(coerce_integer("4294967295").unwrap(), u32::MAX);
    assert_eq!(coerce_integer("00000000000000000001").unwrap(), 1);
}

#[test]
fn integer_rejects_non_numeric() {
    for bad in ["", "+", "-1", "abc", "10a", " 1", "1 ", "1.5"] {
        match coerce_integer(bad) {
            Err(ParseError::InvalidContent(raw)) => assert_eq!(raw, bad),
            other => panic!("expected invalid content for {:?}, got {:?}", bad, other),
        }
    }
}

#[test]
fn integer_rejects_overflow() {
    assert!(matches!(
        coerce_integer("4294967296"),
        Err(ParseError::InvalidContent(_))
    ));
    assert!(matches!(
        coerce_integer("99999999999999999999"),
        Err(ParseError::InvalidContent(_))
    ));
}

#[test]
fn url_absolute_passes_through() {
    let tags: Vec<String> = Vec::new();
    let data = MetaData {
        site_url: "http://x.com",
        tags: &tags,
        content: "http://elsewhere.org/a?q=1",
    };
    assert_eq!(data.normalized_url(), "http://elsewhere.org/a?q=1");
}

#[test]
fn url_relative_is_resolved_against_base() {
    let tags: Vec<String> = Vec::new();
    let data = MetaData {
        site_url: "http://x.com",
        tags: &tags,
        content: "./image.jpg",
    };
    assert_eq!(data.normalized_url(), "http://x.com/image.jpg");
}

#[test]
fn url_malformed_passes_through() {
    let tags: Vec<String> = Vec::new();
    let data = MetaData {
        site_url: "http://x.com",
        tags: &tags,
        content: "http://[bad",
    };
    assert_eq!(data.normalized_url(), "http://[bad");
}

#[test]
fn url_normalization_is_idempotent_on_absolute() {
    let tags: Vec<String> = Vec::new();
    let once = MetaData {
        site_url: "http://x.com",
        tags: &tags,
        content: "http://x.com/image.jpg",
    }
    .normalized_url();
    let twice = MetaData {
        site_url: "http://x.com",
        tags: &tags,
        content: once.as_str(),
    }
    .normalized_url();
    assert_eq!(twice, once);
}

#[test]
fn locale_new_has_no_alternates() {
    let locale = Locale::new("en_US".to_string());
    assert_eq!(locale.locale, "en_US");
    assert!(locale.alternate.is_none());
}
