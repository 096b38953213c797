use cohost_zola::{
    copy_static_resource, escape_quotes, join_path, video_id, write_attachment, write_block, write_markdown,
    AttachmentBlock, Block, MarkdownBlock, Rendered, ResourceError,
};

fn attachment(kind: &str, url: &str, alt: Option<&str>) -> AttachmentBlock {
    AttachmentBlock {
        kind: kind.to_string(),
        file_url: url.to_string(),
        preview_url: url.to_string(),
        attachment_id: "00000000-0000-0000-0000-000000000000".to_string(),
        alt_text: alt.map(|a| a.to_string()),
        width: None,
        height: None,
    }
}

#[test]
fn escape_quotes_replaces_every_quote() {
    assert_eq!(escape_quotes(r#"He said "hi""#), "He said &quot;hi&quot;");
    assert_eq!(escape_quotes("plain"), "plain");
    assert_eq!(escape_quotes(""), "");
    assert_eq!(escape_quotes("\"\""), "&quot;&quot;");
}

#[test]
fn prose_markdown_is_kept_verbatim_between_blank_lines() {
    let mut out = Rendered::new();
    write_markdown(&mut out, "hello \"world\"");
    assert_eq!(out.text, "\nhello \"world\"\n\n\n");
    assert!(out.copies.is_empty());
}

#[test]
fn url_markdown_renders_embed_with_link() {
    let mut out = Rendered::new();
    write_markdown(&mut out, "https://example.com/page");
    assert_eq!(
        out.text,
        "<div class=\"embed\">\n<a class=\"url\" target=\"_blank\" rel=\"noopener noreferrer\" href=\"https://example.com/page\">https://example.com/page</a>\n</div>\n\n"
    );
}

#[test]
fn youtube_markdown_renders_video_and_link() {
    let url = "https://www.youtube.com/watch?v=abc123";
    let mut out = Rendered::new();
    write_markdown(&mut out, url);
    assert!(out.text.contains("{{ youtube(v=\"abc123\") }}\n"));
    assert!(out.text.contains(&format!("href=\"{url}\">{url}</a>")));
}

#[test]
fn youtube_without_video_parameter_keeps_only_the_link() {
    let url = "https://www.youtube.com/feed";
    let mut out = Rendered::new();
    write_markdown(&mut out, url);
    assert!(!out.text.contains("youtube("));
    assert!(out.text.contains(&format!("href=\"{url}\">{url}</a>")));
}

#[test]
fn first_video_parameter_wins() {
    let mut out = Rendered::new();
    write_markdown(&mut out, "https://youtube.com/watch?v=first&v=second");
    assert!(out.text.contains("{{ youtube(v=\"first\") }}"));
    assert!(!out.text.contains("second\")"));
}

#[test]
fn resource_path_is_decoded_and_copy_is_planned() {
    let r = copy_static_resource("/out/static", "/exp/post", "https://cdn.example.org/rc/attachment/u1/my%20file.png")
        .unwrap();
    assert_eq!(r.local_path, "/rc/attachment/u1/my file.png");
    assert_eq!(r.copy.source, "/exp/post/my%20file.png");
    assert_eq!(r.copy.destination, "/out/static/rc/attachment/u1/my file.png");
}

#[test]
fn resolving_twice_gives_the_same_paths() {
    let url = "https://cdn.example.org/a/b/c.jpg";
    let first = copy_static_resource("out", "src", url).unwrap();
    let second = copy_static_resource("out", "src", url).unwrap();
    assert_eq!(first.local_path, second.local_path);
    assert_eq!(first.copy.source, second.copy.source);
    assert_eq!(first.copy.destination, second.copy.destination);
    assert_eq!(first.copy.destination, "out/a/b/c.jpg");
}

#[test]
fn resolution_errors() {
    assert_eq!(copy_static_resource("o", "s", "not a url").unwrap_err(), ResourceError::NotAUrl);
    assert_eq!(copy_static_resource("o", "s", "mailto:someone@example.com").unwrap_err(), ResourceError::NoPathSegments);
    assert_eq!(copy_static_resource("o", "s", "https://x.org/a%FF.png").unwrap_err(), ResourceError::UndecodablePath);
}

#[test]
fn image_alt_text_quotes_are_escaped() {
    let a = attachment("image", "https://cdn.example.org/rc/attachment/u1/pic.png", Some(r#"He said "hi""#));
    let mut out = Rendered::new();
    write_attachment(&mut out, &a, "/out/static", "/exp/post").unwrap();
    assert_eq!(
        out.text,
        "<div class=\"attachment\">\n{{ image(path=\"/rc/attachment/u1/pic.png\", alt=\"He said &quot;hi&quot;\") }}\n</div>\n\n"
    );
    assert_eq!(out.copies.len(), 1);
    assert_eq!(out.copies[0].destination, "/out/static/rc/attachment/u1/pic.png");
}

#[test]
fn audio_attachment_renders_audio_directive() {
    let a = attachment("audio", "https://cdn.example.org/x/song%20one.mp3", None);
    let mut out = Rendered::new();
    write_attachment(&mut out, &a, "st", "ex").unwrap();
    assert_eq!(out.text, "<div class=\"attachment\">\n{{ audio(path=\"/x/song one.mp3\") }}\n</div>\n\n");
    assert_eq!(out.copies[0].source, "ex/song%20one.mp3");
}

#[test]
fn unknown_attachment_kind_is_noted_and_skipped() {
    let a = attachment("video", "https://cdn.example.org/x/clip.mp4", None);
    let mut out = Rendered::new();
    write_attachment(&mut out, &a, "st", "ex").unwrap();
    assert_eq!(out.text, "<div class=\"attachment\">\n</div>\n\n");
    assert_eq!(out.unknown_kinds, vec!["video".to_string()]);
    assert_eq!(out.copies.len(), 1);
}

#[test]
fn row_renders_nested_blocks_in_order() {
    let row = Block::AttachmentRow {
        attachments: vec![
            Block::Attachment { attachment: attachment("audio", "https://c.org/a.mp3", None) },
            Block::Attachment { attachment: attachment("image", "https://c.org/b.png", Some("b")) },
        ],
    };
    let mut out = Rendered::new();
    write_block(&mut out, &row, "st", "ex").unwrap();
    assert_eq!(
        out.text,
        "<div class=\"row\">\n<div class=\"attachment\">\n{{ audio(path=\"/a.mp3\") }}\n</div>\n\n<div class=\"attachment\">\n{{ image(path=\"/b.png\", alt=\"b\") }}\n</div>\n\n</div>\n\n"
    );
    assert_eq!(out.copies.len(), 2);
    assert_eq!(out.copies[1].destination, "st/b.png");
}

#[test]
fn row_fails_when_a_nested_resource_fails() {
    let row = Block::AttachmentRow {
        attachments: vec![Block::Markdown { markdown: MarkdownBlock { content: "hi".to_string() } },
            Block::Attachment { attachment: attachment("image", "nope", None) }],
    };
    let mut out = Rendered::new();
    assert_eq!(write_block(&mut out, &row, "st", "ex").unwrap_err(), ResourceError::NotAUrl);
}

#[test]
fn video_id_needs_video_host() {
    let mut out = Rendered::new();
    write_markdown(&mut out, "https://example.com/watch?v=abc");
    assert!(!out.text.contains("youtube("));
    assert!(video_id(&cohost_zola::UrlParts {
        text: "https://m.youtube.com/watch?v=z".to_string(),
        host: Some("m.youtube.com".to_string()),
        domain: Some("m.youtube.com".to_string()),
        path: "/watch".to_string(),
        last_segment: Some("watch".to_string()),
        query: vec![("v".to_string(), "z".to_string())],
    })
    .is_some_and(|v| v == "z"));
}

#[test]
fn join_path_inserts_one_separator() {
    assert_eq!(join_path("a", "b"), "a/b");
    assert_eq!(join_path("a/", "b"), "a/b");
    assert_eq!(join_path("", "b"), "b");
    assert_eq!(join_path("a", "/b"), "/b");
}

#[test]
fn url_markdown_links_to_the_content_exactly() {
    let mut out = Rendered::new();
    write_markdown(&mut out, "https://example.com");
    assert!(out.text.contains("href=\"https://example.com\">https://example.com</a>"));
}
