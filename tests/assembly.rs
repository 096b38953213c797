use cohost_zola::{
    find_preview_image, post_front_matter_text, post_index, project_home, project_paths, AskSettings, AttachmentBlock,
    Block, Config, MarkdownBlock, Post, PostError, PostProcessor, Project, ProjectError, ResourceError, Timestamp,
};

fn image(kind: &str, url: &str) -> Block {
    Block::Attachment {
        attachment: AttachmentBlock {
            kind: kind.to_string(),
            file_url: url.to_string(),
            preview_url: url.to_string(),
            attachment_id: "id".to_string(),
            alt_text: None,
            width: Some(10),
            height: Some(20),
        },
    }
}

fn markdown(text: &str) -> Block {
    Block::Markdown { markdown: MarkdownBlock { content: text.to_string() } }
}

fn post(blocks: Vec<Block>) -> Post {
    Post {
        post_id: 123,
        headline: "Hello".to_string(),
        published_at: Timestamp { unix_seconds: 1704067200, nanosecond: 0, offset_seconds: 0 },
        state: 1,
        cws: vec![],
        tags: vec!["a".to_string()],
        blocks,
        pinned: false,
        comments_locked: false,
        shares_locked: false,
        single_post_page_url: "https://cohost.org/alice/post/123-hello".to_string(),
    }
}

fn project(url: &str, avatar: Option<&str>) -> Project {
    Project {
        handle: "alice".to_string(),
        display_name: "Alice".to_string(),
        dek: "dek".to_string(),
        description: "about".to_string(),
        avatar_url: avatar.map(|a| a.to_string()),
        avatar_preview_url: None,
        header_url: None,
        header_preview_url: None,
        project_id: 7,
        privacy: "public".to_string(),
        pronouns: "they/them".to_string(),
        url: url.to_string(),
        flags: vec![],
        avatar_shape: "circle".to_string(),
        logged_out_post_visibility: "public".to_string(),
        ask_settings: AskSettings { enabled: false, allow_anon: false, require_logged_in_anon: false },
        frequently_used_tags: vec![],
        contact_card: vec![],
        delete_after: None,
        is_self_project: true,
    }
}

#[test]
fn preview_image_is_first_image_descending_into_rows() {
    let p = post(vec![
        markdown("intro"),
        Block::AttachmentRow {
            attachments: vec![image("audio", "https://c.org/a.mp3"), image("image", "https://c.org/U.png")],
        },
        image("image", "https://c.org/V.png"),
    ]);
    assert_eq!(find_preview_image(&p), Some("/U.png".to_string()));
}

#[test]
fn preview_image_absent_without_images() {
    let p = post(vec![markdown("intro"), image("audio", "https://c.org/a.mp3")]);
    assert_eq!(find_preview_image(&p), None);
}

#[test]
fn hello_world_post_document() {
    let config = Config::new("export", "zola");
    let processor = PostProcessor::new("export/project/alice/posts/published/123".to_string(), config);
    let doc = processor.process(&post(vec![markdown("hello world")])).unwrap();
    assert_eq!(doc.path, "zola/content/alice/post/123-hello.md");
    assert_eq!(
        doc.text,
        "+++\ndate = \"2024-01-01T00:00:00Z\"\ntemplate = \"project-post.html\"\ntitle = \"Hello\"\n\n[extra]\npreview_image = \"\"\n\n[taxonomies]\ntags = [\"a\"]\n\n+++\n\n\nhello world\n\n\n"
    );
    assert!(doc.copies.is_empty());
    assert_eq!(processor.post_json_path(), "export/project/alice/posts/published/123/post.json");
}

#[test]
fn post_with_image_plans_copy_and_preview() {
    let config = Config::new("export", "zola");
    let processor = PostProcessor::new("dir".to_string(), config);
    let doc = processor.process(&post(vec![image("image", "https://c.org/rc/x/pic%20one.png")])).unwrap();
    assert!(doc.text.contains("preview_image = \"/rc/x/pic%20one.png\""));
    assert!(doc.text.contains("{{ image(path=\"/rc/x/pic one.png\", alt=\"\") }}"));
    assert_eq!(doc.copies.len(), 1);
    assert_eq!(doc.copies[0].source, "dir/pic%20one.png");
    assert_eq!(doc.copies[0].destination, "zola/static/rc/x/pic one.png");
}

#[test]
fn post_date_keeps_its_offset() {
    let config = Config::new("export", "zola");
    let processor = PostProcessor::new("dir".to_string(), config);
    let mut p = post(vec![]);
    p.published_at = Timestamp { unix_seconds: 1704067200, nanosecond: 500_000_000, offset_seconds: 3600 };
    let doc = processor.process(&p).unwrap();
    assert!(doc.text.contains("date = \"2024-01-01T01:00:00.5+01:00\""));
}

#[test]
fn post_errors() {
    let config = Config::new("export", "zola");
    let processor = PostProcessor::new("dir".to_string(), config);
    let mut p = post(vec![]);
    p.single_post_page_url = "nowhere".to_string();
    assert_eq!(processor.process(&p).unwrap_err(), PostError::BadPageUrl);
    let p = post(vec![image("image", "broken")]);
    assert_eq!(processor.process(&p).unwrap_err(), PostError::Resource(ResourceError::NotAUrl));
    let mut p = post(vec![]);
    p.published_at.nanosecond = 2_000_000_000;
    assert_eq!(processor.process(&p).unwrap_err(), PostError::UnformattableDate);
}

#[test]
fn assemble_takes_the_date_as_given() {
    let processor = PostProcessor::new("dir".to_string(), Config::new("e", "o"));
    let doc = processor.assemble(&post(vec![]), "then").unwrap();
    assert!(doc.text.contains("date = \"then\"\n"));
}

#[test]
fn post_front_matter_quotes_and_sorts() {
    let text = post_front_matter_text("Say \"hi\"", "d", &vec!["a".to_string(), "b c".to_string()], "");
    assert_eq!(
        text,
        "date = \"d\"\ntemplate = \"project-post.html\"\ntitle = 'Say \"hi\"'\n\n[extra]\npreview_image = \"\"\n\n[taxonomies]\ntags = [\"a\", \"b c\"]\n"
    );
    let empty = post_front_matter_text("t", "d", &vec![], "p");
    assert!(empty.contains("tags = []\n"));
}

#[test]
fn project_layout() {
    let config = Config::new("export", "zola");
    let paths = project_paths(&config, "alice");
    assert_eq!(paths.source, "export/project/alice");
    assert_eq!(paths.metadata, "export/project/alice/alice.json");
    assert_eq!(paths.home_document, "zola/content/alice/_index.md");
    assert_eq!(paths.posts_dir, "export/project/alice/posts/published");
    assert_eq!(paths.post_index_document, "zola/content/alice/post/_index.md");
}

#[test]
fn project_home_document() {
    let config = Config::new("export", "zola");
    let home = project_home(&config, "export/project/alice", &project("https://alice.example/", Some("https://c.org/rc/avatar/a%20b.png"))).unwrap();
    assert_eq!(
        home.text,
        "+++\npaginate_by = 20\nsort_by = \"date\"\ntemplate = \"project-home.html\"\n\n[extra]\navatar_shape = \"circle\"\navatar_url = \"/rc/avatar/a%20b.png\"\ndek = \"dek\"\ndescription = \"about\"\ndisplay_name = \"Alice\"\nhandle = \"alice\"\nheader_url = \"\"\npronouns = \"they/them\"\nurl = \"https://alice.example/\"\nurl_short = \"alice.example/\"\n\n+++\n"
    );
    assert_eq!(home.copies.len(), 1);
    assert_eq!(home.copies[0].source, "export/project/alice/a%20b.png");
    assert_eq!(home.copies[0].destination, "zola/static/rc/avatar/a b.png");
}

#[test]
fn project_home_errors() {
    let config = Config::new("export", "zola");
    assert_eq!(project_home(&config, "s", &project("not a url", None)).unwrap_err(), ProjectError::BadUrl);
    assert_eq!(
        project_home(&config, "s", &project("", Some("mailto:a@b.c"))).unwrap_err(),
        ProjectError::Resource(ResourceError::NoPathSegments)
    );
    assert!(project_home(&config, "s", &project("", None)).unwrap().text.contains("url_short = \"\"\n"));
}

#[test]
fn post_index_document() {
    assert_eq!(
        post_index(),
        "+++\npage_template = \"blog-page.html\"\nsort_by = \"date\"\ntemplate = \"404.html\"\ntransparent = true\n\n+++"
    );
}

#[test]
fn post_date_near_the_last_year_formats_from_local_time() {
    let processor = PostProcessor::new("dir".to_string(), Config::new("e", "o"));
    let mut p = post(vec![]);
    p.published_at = Timestamp { unix_seconds: 253402300800, nanosecond: 0, offset_seconds: -3600 };
    let doc = processor.process(&p).unwrap();
    assert!(doc.text.contains("date = \"9999-12-31T23:00:00-01:00\""));
    p.published_at = Timestamp { unix_seconds: 253402300800, nanosecond: 0, offset_seconds: 0 };
    assert_eq!(processor.process(&p).unwrap_err(), PostError::UnformattableDate);
}
