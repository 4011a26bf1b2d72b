use blog_server::html::{article_policy, clean, to_plain, try_to_plain};

fn reference_clean(src: &str) -> String {
    ammonia::Builder::default()
        .add_generic_attributes(&["style"])
        .add_tag_attributes("table", &["border"])
        .add_allowed_classes("img", &["article-img"])
        .add_tags(&["video"])
        .add_tag_attributes("video", &["controls", "autoplay", "loop"])
        .add_allowed_classes("video", &["article-img"])
        .add_tags(&["source"])
        .add_tag_attributes("source", &["src", "type"])
        .add_tags(&["iframe"])
        .add_tag_attributes(
            "iframe",
            &["src", "allowfullscreen", "width", "height", "frameBorder", "allow", "loading"],
        )
        .add_allowed_classes("iframe", &["article-iframe"])
        .clean(src)
        .to_string()
}

const SAMPLES: [&str; 6] = [
    "<p style=\"color: red\" onclick=\"x()\">Hello</p><script>alert(1)</script>",
    "<img src=\"a.png\" class=\"article-img other\">",
    "<video controls autoplay loop class=\"article-img\"><source src=\"v.mp4\" type=\"video/mp4\"></video>",
    "<iframe src=\"https://example.com\" allowfullscreen width=\"10\" class=\"article-iframe x\" onload=\"y\"></iframe>",
    "<table border=\"1\"><tr><td>cell</td></tr></table>",
    "plain & simple <b>bold</b> <a href=\"https://e.com\" rel=\"x\">link</a>",
];

#[test]
fn clean_matches_configured_sanitizer() {
    for s in SAMPLES.iter() {
        assert_eq!(clean(s), reference_clean(s), "input {:?}", s);
    }
}

#[test]
fn clean_removes_scripts_and_handlers() {
    let out = clean(SAMPLES[0]);
    assert!(!out.contains("script"));
    assert!(!out.contains("onclick"));
    assert!(out.contains("style=\"color: red\""));
    assert!(out.contains("Hello"));
}

#[test]
fn clean_keeps_article_embeds() {
    let out = clean(SAMPLES[3]);
    assert!(out.contains("<iframe"));
    assert!(out.contains("class=\"article-iframe\""));
    assert!(!out.contains("onload"));
    let out = clean(SAMPLES[1]);
    assert!(out.contains("class=\"article-img\""));
    assert!(!out.contains("other"));
}

#[test]
fn article_policy_contents() {
    let p = article_policy();
    assert_eq!(p.generic_attributes, vec!["style"]);
    assert_eq!(p.tags, vec!["video", "source", "iframe"]);
    assert_eq!(p.tag_attributes.len(), 4);
    assert_eq!(p.allowed_classes[2], ("iframe", vec!["article-iframe"]));
}

#[test]
fn to_plain_renders_text() {
    let html = "<h1>Title</h1><p>Hello <b>world</b></p><ul><li>one</li></ul>";
    let text = to_plain(html);
    assert_eq!(text, html2text::from_read(html.as_bytes(), usize::MAX));
    assert!(text.contains("Hello"));
    assert!(!text.contains("<p>"));
    assert_eq!(try_to_plain(html), Some(text));
}
