use cardgraph::twitter::TwitterGraphObject;
use cardgraph::{ParseError, TwitterScraper};

fn resolve(root: &mut TwitterGraphObject, property: &str, content: &str) -> Result<(), ParseError> {
    TwitterScraper::resolve(root, property, content, "http://x.com")
}

#[test]
fn unknown_top_level_segment_is_ignored() {
    let mut root = TwitterGraphObject::default();
    resolve(&mut root, "twitter:nonsense", "X").unwrap();
    assert!(root.card.is_none());
    assert!(root.site.is_none());
    assert!(root.creator.is_none());
    assert!(root.description.is_none());
    assert!(root.title.is_none());
    assert!(root.image.is_none());
    assert!(root.player.is_none());
}

#[test]
fn card_scalar_fields_exact() {
    let mut root = TwitterGraphObject::default();
    resolve(&mut root, "twitter:card", "summary").unwrap();
    resolve(&mut root, "twitter:site", "@x").unwrap();
    resolve(&mut root, "twitter:description", "words").unwrap();
    resolve(&mut root, "twitter:title", "A Title").unwrap();
    assert_eq!(root.card, Some("summary".into()));
    assert_eq!(root.site, Some("@x".into()));
    assert_eq!(root.description, Some("words".into()));
    assert_eq!(root.title, Some("A Title".into()));
}

#[test]
fn card_image_url_is_normalized() {
    let mut root = TwitterGraphObject::default();
    resolve(&mut root, "twitter:image", "./pic.jpg").unwrap();
    let image = root.image.unwrap();
    assert_eq!(image.url, "http://x.com/pic.jpg");
}

#[test]
fn card_image_src_alias_and_alt() {
    let mut root = TwitterGraphObject::default();
    resolve(&mut root, "twitter:image:src", "http://x.com/pic.jpg").unwrap();
    resolve(&mut root, "twitter:image:alt", "alt text").unwrap();
    let image = root.image.unwrap();
    assert_eq!(image.url, "http://x.com/pic.jpg");
    assert_eq!(image.alt, Some("alt text".into()));
}

#[test]
fn card_image_bad_subfield_is_invalid_tag() {
    let mut root = TwitterGraphObject::default();
    assert!(matches!(
        resolve(&mut root, "twitter:image:bogus", "X"),
        Err(ParseError::InvalidPropertyTag)
    ));
    assert!(root.image.is_some());
}

#[test]
fn card_creator_fields() {
    let mut root = TwitterGraphObject::default();
    resolve(&mut root, "twitter:creator", "@someone").unwrap();
    resolve(&mut root, "twitter:creator:id", "42").unwrap();
    let creator = root.creator.unwrap();
    assert_eq!(creator.username, "@someone");
    assert_eq!(creator.id, Some("42".into()));
}

#[test]
fn card_player_fields() {
    let mut root = TwitterGraphObject::default();
    resolve(&mut root, "twitter:player", "./embed").unwrap();
    resolve(&mut root, "twitter:player:width", "640").unwrap();
    resolve(&mut root, "twitter:player:height", "360").unwrap();
    resolve(&mut root, "twitter:player:stream", "./video.mp4").unwrap();
    let player = root.player.unwrap();
    assert_eq!(player.url, "http://x.com/embed");
    assert_eq!(player.width, Some(640));
    assert_eq!(player.height, Some(360));
    assert_eq!(player.stream, Some("http://x.com/video.mp4".into()));
}

#[test]
fn card_player_bad_width_is_invalid_content() {
    let mut root = TwitterGraphObject::default();
    match resolve(&mut root, "twitter:player:width", "wide") {
        Err(ParseError::InvalidContent(raw)) => assert_eq!(raw, "wide"),
        other => panic!("expected invalid content, got {:?}", other),
    }
}
