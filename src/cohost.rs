use vstd::prelude::*;

verus! {

/// A project (an account) of the export, as its metadata document gives it.
/// The media references are absolute URLs, kept in their serialized form.
#[derive(Clone, Debug)]
pub struct Project {
    pub handle: String,
    pub display_name: String,
    pub dek: String,
    pub description: String,
    pub avatar_url: Option<String>,
    pub avatar_preview_url: Option<String>,
    pub header_url: Option<String>,
    pub header_preview_url: Option<String>,
    pub project_id: u64,
    pub privacy: String,
    pub pronouns: String,
    pub url: String,
    pub flags: Vec<String>,
    pub avatar_shape: String,
    pub logged_out_post_visibility: String,
    pub ask_settings: AskSettings,
    pub frequently_used_tags: Vec<String>,
    pub contact_card: Vec<String>,
    pub delete_after: Option<String>,
    pub is_self_project: bool,
}

#[derive(Clone, Copy, Debug)]
pub struct AskSettings {
    pub enabled: bool,
    pub allow_anon: bool,
    pub require_logged_in_anon: bool,
}

/// An instant as whole seconds since the Unix epoch, the nanoseconds past
/// that second, and the UTC offset (in seconds) it was written in.
#[derive(Clone, Copy, Debug)]
pub struct Timestamp {
    pub unix_seconds: i64,
    pub nanosecond: u32,
    pub offset_seconds: i32,
}

/// A published post. `blocks` is in render order.
#[derive(Debug)]
pub struct Post {
    pub post_id: u64,
    pub headline: String,
    pub published_at: Timestamp,
    pub state: u32,
    pub cws: Vec<String>,
    pub tags: Vec<String>,
    pub blocks: Vec<Block>,
    pub pinned: bool,
    pub comments_locked: bool,
    pub shares_locked: bool,
    /// The post's canonical URL, serialized.
    pub single_post_page_url: String,
}

/// One unit of post content.
#[derive(Debug)]
pub enum Block {
    Markdown { markdown: MarkdownBlock },
    Attachment { attachment: AttachmentBlock },
    AttachmentRow { attachments: Vec<Block> },
}

#[derive(Clone, Debug)]
pub struct MarkdownBlock {
    pub content: String,
}

/// A single media item. `file_url` and `preview_url` are absolute URLs,
/// serialized.
#[derive(Clone, Debug)]
pub struct AttachmentBlock {
    pub kind: String,
    pub file_url: String,
    pub preview_url: String,
    pub attachment_id: String,
    pub alt_text: Option<String>,
    pub width: Option<u32>,
    pub height: Option<u32>,
}

} // verus!
