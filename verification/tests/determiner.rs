use cardgraph::open_graph::Determiner;
use cardgraph::ParseError;
use std::str::FromStr;

#[test]
fn determiner_from_str() {
    assert_eq!(Determiner::from_str("a").unwrap(), Determiner::A);
    assert_eq!(Determiner::from_str("").unwrap(), Determiner::Blank);
}

#[test]
fn determiner_known_variants() {
    assert_eq!(Determiner::parse("an").unwrap(), Determiner::An);
    assert_eq!(Determiner::parse("auto").unwrap(), Determiner::Auto);
    assert_eq!(Determiner::parse("the").unwrap(), Determiner::The);
}

#[test]
fn determiner_unknown_is_invalid_content() {
    match Determiner::parse("xyz") {
        Err(ParseError::InvalidContent(raw)) => assert_eq!(raw, "xyz"),
        other => panic!("expected invalid content, got {:?}", other),
    }
}

#[test]
fn determiner_is_case_sensitive() {
    assert!(matches!(
        Determiner::parse("A"),
        Err(ParseError::InvalidContent(_))
    ));
}
