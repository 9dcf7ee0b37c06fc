use cardgraph::graph_object::should_create_new;
use cardgraph::scraper::split_colon;
use cardgraph::MetaData;

#[test]
fn next_drops_first_segment() {
    let tags = vec!["image".to_string(), "width".to_string()];
    let data = MetaData {
        site_url: "http://x.com",
        tags: &tags,
        content: "10",
    };
    let next = data.next();
    assert_eq!(next.tags.len(), 1);
    assert_eq!(next.tags[0], "width");
    assert_eq!(next.content, "10");
    assert_eq!(next.site_url, "http://x.com");
}

#[test]
fn split_colon_pieces() {
    assert_eq!(split_colon("og:image:url"), ["og", "image", "url"]);
    assert_eq!(split_colon("og"), ["og"]);
    assert_eq!(split_colon(""), [""]);
    assert_eq!(split_colon("a::b"), ["a", "", "b"]);
    assert_eq!(split_colon(":a:"), ["", "a", ""]);
    assert_eq!(split_colon("og:t\u{ef}tle"), ["og", "t\u{ef}tle"]);
}

#[test]
fn new_element_on_bare_or_url_tag() {
    let none: Vec<String> = Vec::new();
    assert!(should_create_new(&none));
    assert!(should_create_new(&["url".to_string()]));
    assert!(should_create_new(&["url".to_string(), "x".to_string()]));
    assert!(!should_create_new(&["width".to_string()]));
    assert!(!should_create_new(&["alt".to_string()]));
}
