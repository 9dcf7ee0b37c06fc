use cardgraph::open_graph::{Determiner, Image, OpenGraphObject};
use cardgraph::{OpenGraphScraper, ParseError};

fn resolve(root: &mut OpenGraphObject, property: &str, content: &str) -> Result<(), ParseError> {
    OpenGraphScraper::resolve(root, property, content, "http://x.com")
}

#[test]
fn repeated_image_bare_tags_create_two() {
    let mut root = OpenGraphObject::default();
    resolve(&mut root, "og:image", "X").unwrap();
    resolve(&mut root, "og:image", "Y").unwrap();
    let images = root.images.unwrap();
    assert_eq!(images.len(), 2);
    assert_eq!(images[0].url, "X");
    assert_eq!(images[1].url, "Y");
}

#[test]
fn repeated_image_url_then_subfield_updates_last() {
    let mut root = OpenGraphObject::default();
    resolve(&mut root, "og:image:url", "X").unwrap();
    resolve(&mut root, "og:image:width", "10").unwrap();
    let images = root.images.unwrap();
    assert_eq!(images.len(), 1);
    assert_eq!(images[0].url, "X");
    assert_eq!(images[0].width, Some(10));
}

#[test]
fn repeated_image_explicit_url_starts_new_entry() {
    let mut root = OpenGraphObject::default();
    resolve(&mut root, "og:image", "X").unwrap();
    resolve(&mut root, "og:image:url", "Y").unwrap();
    assert_eq!(root.images.unwrap().len(), 2);
}

#[test]
fn repeated_image_orphan_subfield_is_dropped() {
    let mut root = OpenGraphObject::default();
    resolve(&mut root, "og:image:alt", "X").unwrap();
    assert!(root.images.is_none());
}

#[test]
fn image_fields_exact() {
    let mut root = OpenGraphObject::default();
    resolve(&mut root, "og:image:url", "http://x.com/image.jpg").unwrap();
    resolve(&mut root, "og:image:type", "image/jpeg").unwrap();
    resolve(&mut root, "og:image:secure_url", "X").unwrap();
    resolve(&mut root, "og:image:width", "10").unwrap();
    resolve(&mut root, "og:image:height", "10").unwrap();
    resolve(&mut root, "og:image:alt", "alt").unwrap();
    assert_eq!(
        root.images,
        Some(vec![Image {
            url: "http://x.com/image.jpg".into(),
            media_type: Some("image/jpeg".into()),
            secure_url: Some("X".into()),
            width: Some(10),
            height: Some(10),
            alt: Some("alt".into()),
        }])
    );
}

#[test]
fn image_bad_subfield_is_invalid_tag() {
    let mut root = OpenGraphObject::default();
    resolve(&mut root, "og:image", "X").unwrap();
    assert!(matches!(
        resolve(&mut root, "og:image:bogus", "X"),
        Err(ParseError::InvalidPropertyTag)
    ));
}

#[test]
fn image_bad_subfield_without_element_is_dropped() {
    let mut root = OpenGraphObject::default();
    resolve(&mut root, "og:image:bogus", "X").unwrap();
    assert!(root.images.is_none());
}

#[test]
fn image_width_bad_content_is_invalid_content() {
    let mut root = OpenGraphObject::default();
    resolve(&mut root, "og:image", "X").unwrap();
    match resolve(&mut root, "og:image:width", "wide") {
        Err(ParseError::InvalidContent(raw)) => assert_eq!(raw, "wide"),
        other => panic!("expected invalid content, got {:?}", other),
    }
    let images = root.images.unwrap();
    assert_eq!(images.len(), 1);
    assert_eq!(images[0].width, None);
}

#[test]
fn title_last_write_wins() {
    let mut root = OpenGraphObject::default();
    resolve(&mut root, "og:title", "X").unwrap();
    resolve(&mut root, "og:title", "Y").unwrap();
    assert_eq!(root.title, Some("Y".into()));
}

#[test]
fn locale_alternates_accumulate() {
    let mut root = OpenGraphObject::default();
    resolve(&mut root, "og:locale", "en_US").unwrap();
    resolve(&mut root, "og:locale:alternate", "fr_FR").unwrap();
    resolve(&mut root, "og:locale:alternate", "de_DE").unwrap();
    let locale = root.locale.unwrap();
    assert_eq!(locale.locale, "en_US");
    assert_eq!(
        locale.alternate,
        Some(vec!["fr_FR".to_string(), "de_DE".to_string()])
    );
}

#[test]
fn locale_bad_subfield_is_invalid_tag() {
    let mut root = OpenGraphObject::default();
    assert!(matches!(
        resolve(&mut root, "og:locale:bogus", "X"),
        Err(ParseError::InvalidPropertyTag)
    ));
}

#[test]
fn unknown_top_level_segment_is_rejected() {
    let mut root = OpenGraphObject::default();
    assert!(matches!(
        resolve(&mut root, "og:nonsense", "X"),
        Err(ParseError::InvalidPropertyTag)
    ));
    assert!(root.title.is_none());
}

#[test]
fn bare_root_prefix_is_discarded() {
    let mut root = OpenGraphObject::default();
    resolve(&mut root, "og", "X").unwrap();
    assert!(root.title.is_none());
    assert!(root.url.is_none());
    assert!(root.images.is_none());
}

#[test]
fn empty_trailing_segment_is_invalid_tag() {
    let mut root = OpenGraphObject::default();
    resolve(&mut root, "og:image", "X").unwrap();
    assert!(matches!(
        resolve(&mut root, "og:image:", "X"),
        Err(ParseError::InvalidPropertyTag)
    ));
}

#[test]
fn determiner_via_root() {
    let mut root = OpenGraphObject::default();
    resolve(&mut root, "og:determiner", "a").unwrap();
    assert_eq!(root.determiner, Some(Determiner::A));
    match resolve(&mut root, "og:determiner", "xyz") {
        Err(ParseError::InvalidContent(raw)) => assert_eq!(raw, "xyz"),
        other => panic!("expected invalid content, got {:?}", other),
    }
    assert_eq!(root.determiner, Some(Determiner::A));
    resolve(&mut root, "og:determiner", "").unwrap();
    assert_eq!(root.determiner, Some(Determiner::Blank));
}

#[test]
fn audio_url_is_normalized() {
    let mut root = OpenGraphObject::default();
    resolve(&mut root, "og:audio", "./theme.mp3").unwrap();
    resolve(&mut root, "og:audio:type", "audio/mpeg").unwrap();
    let audio = root.audio.unwrap();
    assert_eq!(audio.len(), 1);
    assert_eq!(audio[0].url, "http://x.com/theme.mp3");
    assert_eq!(audio[0].media_type, Some("audio/mpeg".into()));
}

#[test]
fn video_url_is_stored_verbatim() {
    let mut root = OpenGraphObject::default();
    resolve(&mut root, "og:video", "./clip.mp4").unwrap();
    resolve(&mut root, "og:video:width", "640").unwrap();
    let video = root.video.unwrap();
    assert_eq!(video.len(), 1);
    assert_eq!(video[0].url, "./clip.mp4");
    assert_eq!(video[0].width, Some(640));
}

#[test]
fn scalar_fields_exact() {
    let mut root = OpenGraphObject::default();
    resolve(&mut root, "og:title", "A Title").unwrap();
    resolve(&mut root, "og:type", "article").unwrap();
    resolve(&mut root, "og:url", "http://x.com/a").unwrap();
    resolve(&mut root, "og:description", "words").unwrap();
    resolve(&mut root, "og:site_name", "X").unwrap();
    assert_eq!(root.title, Some("A Title".into()));
    assert_eq!(root.media_type, Some("article".into()));
    assert_eq!(root.url, Some("http://x.com/a".into()));
    assert_eq!(root.description, Some("words".into()));
    assert_eq!(root.site_name, Some("X".into()));
}

#[test]
fn failed_pair_does_not_stop_later_pairs() {
    let mut root = OpenGraphObject::default();
    assert!(resolve(&mut root, "og:nonsense", "X").is_err());
    resolve(&mut root, "og:title", "Y").unwrap();
    assert_eq!(root.title, Some("Y".into()));
}
