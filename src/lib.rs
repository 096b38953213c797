//! Turns a social-media export (projects, posts made of typed content blocks)
//! into static-site source documents and a list of media files to copy.

pub mod cohost;
pub mod frontmatter;
pub mod post;
pub mod project;
pub mod render;
pub mod resource;
pub mod text;
pub mod weburl;

pub use cohost::{AskSettings, AttachmentBlock, Block, MarkdownBlock, Post, Project, Timestamp};
pub use frontmatter::TomlItem;
pub use post::post_front_matter_text;
pub use post::{find_preview_image, Config, PostDocument, PostError, PostProcessor};
pub use project::{post_index, project_home, project_paths, short_url, ProjectError, ProjectHome, ProjectPaths};
pub use render::{video_id, write_attachment, write_block, write_markdown, Rendered};
pub use resource::{copy_static_resource, CopyJob, ResolvedResource, ResourceError};
pub use text::{escape_quotes, join_path};
pub use weburl::{query_value, UrlParts};
