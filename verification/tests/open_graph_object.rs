use cardgraph::graph_object::GraphObject;
use cardgraph::open_graph::OpenGraphObject;
use cardgraph::MetaData;

fn tags(segments: &[&str]) -> Vec<String> {
    segments.iter().map(|s| s.to_string()).collect()
}

#[test]
fn update() {
    let mut graph_object = OpenGraphObject::default();
    let site_url = "http://x.com";

    let t = tags(&["title"]);
    graph_object
        .update_from(MetaData {
            site_url,
            tags: &t,
            content: "title",
        })
        .unwrap();
    assert!(graph_object.title.is_some());

    let t = tags(&["type"]);
    graph_object
        .update_from(MetaData {
            site_url,
            tags: &t,
            content: "type",
        })
        .unwrap();
    assert!(graph_object.media_type.is_some());

    let t = tags(&["url"]);
    graph_object
        .update_from(MetaData {
            site_url,
            tags: &t,
            content: "url",
        })
        .unwrap();
    assert!(graph_object.url.is_some());

    let t = tags(&["description"]);
    graph_object
        .update_from(MetaData {
            site_url,
            tags: &t,
            content: "description",
        })
        .unwrap();
    assert!(graph_object.description.is_some());

    let t = tags(&["determiner"]);
    graph_object
        .update_from(MetaData {
            site_url,
            tags: &t,
            content: "",
        })
        .unwrap();
    assert!(graph_object.determiner.is_some());

    let t = tags(&["site_name"]);
    graph_object
        .update_from(MetaData {
            site_url,
            tags: &t,
            content: "site_name",
        })
        .unwrap();
    assert!(graph_object.site_name.is_some());

    let t = tags(&["image"]);
    graph_object
        .update_from(MetaData {
            site_url,
            tags: &t,
            content: "image",
        })
        .unwrap();
    assert!(graph_object.images.is_some());

    let t = tags(&["audio"]);
    graph_object
        .update_from(MetaData {
            site_url,
            tags: &t,
            content: "audio",
        })
        .unwrap();
    assert!(graph_object.audio.is_some());

    let t = tags(&["video"]);
    graph_object
        .update_from(MetaData {
            site_url,
            tags: &t,
            content: "video",
        })
        .unwrap();
    assert!(graph_object.video.is_some());

    let t = tags(&["locale"]);
    graph_object
        .update_from(MetaData {
            site_url,
            tags: &t,
            content: "locale",
        })
        .unwrap();
    assert!(graph_object.locale.is_some());
}
