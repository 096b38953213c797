use vstd::prelude::*;

use crate::cohost::{Block, Post};
use crate::frontmatter::{
    copy_texts, document, entries_view, formattable, local_seconds, rfc3339, timestamp_text, sections_view, text_entry, texts,
    toml_document, toml_table_text, TomlItem, TomlItemModel,
};
use crate::render::{
    block_rendering, followed_by, markdown_markup, nested_count, nothing_rendered, write_block, Rendered, Rendering,
};
use crate::resource::{CopyJob, CopyModel, ResourceError};
use crate::text::{join_path, path_join, same_text, strip_leading_slashes, without_leading_slashes};
use crate::weburl::{parse_url, parsed_url, text_of};

verus! {

broadcast use vstd::std_specs::vec::group_vec_axioms, vstd::seq::group_seq_axioms;

/// Where the export is read from and where documents and media go.
#[derive(Clone, Debug)]
pub struct Config {
    pub export_path: String,
    pub content_path: String,
    pub static_path: String,
}

impl Config {
    /// Documents go to `content` and media to `static` under `output_path`.
    pub fn new(export_path: &str, output_path: &str) -> (r: Config)
        ensures
            r.export_path@ == export_path@,
            r.content_path@ == path_join(output_path@, "content"@),
            r.static_path@ == path_join(output_path@, "static"@),
    {
        Config {
            export_path: export_path.to_owned(),
            content_path: join_path(output_path, "content"),
            static_path: join_path(output_path, "static"),
        }
    }
}

/// Why a post could not be assembled.
#[derive(Clone, Copy, Debug, PartialEq, Eq)]
pub enum PostError {
    /// A media reference of the post could not be resolved.
    Resource(ResourceError),
    /// The canonical URL of the post does not parse.
    BadPageUrl,
    /// The publication time has no RFC 3339 form.
    UnformattableDate,
}

/// The rendered post: where its document goes, the document, the copies
/// that must be made before it counts as complete, and the attachment kinds
/// that were left out.
#[derive(Debug)]
pub struct PostDocument {
    pub path: String,
    pub text: String,
    pub copies: Vec<CopyJob>,
    pub unknown_kinds: Vec<String>,
}

pub ghost struct PostModel {
    pub path: Seq<char>,
    pub text: Seq<char>,
    pub copies: Seq<CopyModel>,
    pub unknown_kinds: Seq<Seq<char>>,
}

impl View for PostDocument {
    type V = PostModel;

    open spec fn view(&self) -> PostModel {
        PostModel {
            path: self.path@,
            text: self.text@,
            copies: self.copies@.map_values(|c: CopyJob| c@),
            unknown_kinds: texts(self.unknown_kinds),
        }
    }
}

/// The file URL of the first image attachment within the first `n` nested
/// blocks of a row (of the block itself, where it is not a row), depth first.
pub open spec fn image_within(b: Block, n: nat) -> Option<Seq<char>>
    decreases b, n,
{
    match b {
        Block::Markdown { .. } => None,
        Block::Attachment { attachment } => if attachment.kind@ == "image"@ {
            Some(attachment.file_url@)
        } else {
            None
        },
        Block::AttachmentRow { attachments } => if n == 0 || n > attachments.len() {
            None
        } else {
            match image_within(b, (n - 1) as nat) {
                Some(u) => Some(u),
                None => {
                    let c = attachments@[n - 1];
                    image_within(c, nested_count(c))
                },
            }
        },
    }
}

/// The file URL of the first image attachment in `blocks`, in block order,
/// descending into rows.
pub open spec fn first_image(blocks: Seq<Block>) -> Option<Seq<char>>
    decreases blocks.len(),
{
    if blocks.len() == 0 {
        None
    } else {
        match first_image(blocks.drop_last()) {
            Some(u) => Some(u),
            None => image_within(blocks.last(), nested_count(blocks.last())),
        }
    }
}

fn block_image(b: &Block) -> (r: Option<String>)
    ensures
        text_of(r) == image_within(*b, nested_count(*b)),
    decreases b,
{
    match b {
        Block::Markdown { .. } => None,
        Block::Attachment { attachment } => if same_text(attachment.kind.as_str(), "image") {
            Some(attachment.file_url.clone())
        } else {
            None
        },
        Block::AttachmentRow { attachments } => {
            let n = attachments.len();
            let mut i: usize = 0;
            while i < n
                invariant
                    n == attachments@.len(),
                    i <= n,
                    *b == (Block::AttachmentRow { attachments: *attachments }),
                    image_within(*b, i as nat) is None,
                decreases n - i,
            {
                proof {
                    assert(decreases_to!(*attachments => attachments[i as int]));
                }
                let found = block_image(&attachments[i]);
                if found.is_some() {
                    proof {
                        lemma_image_found_stays(*b, (i + 1) as nat, n as nat);
                    }
                    return found;
                }
                i = i + 1;
            }
            None
        },
    }
}

proof fn lemma_image_found_stays(b: Block, k: nat, m: nat)
    requires
        b is AttachmentRow,
        k <= m <= nested_count(b),
        image_within(b, k) is Some,
    ensures
        image_within(b, m) == image_within(b, k),
    decreases m - k,
{
    if k < m {
        lemma_image_found_stays(b, k, (m - 1) as nat);
    }
}

/// The file URL of the post's first image attachment, in block order,
/// descending into rows.
fn first_image_url(post: &Post) -> (r: Option<String>)
    ensures
        text_of(r) == first_image(post.blocks@),
{
    let n = post.blocks.len();
    let mut i: usize = 0;
    while i < n
        invariant
            n == post.blocks@.len(),
            i <= n,
            first_image(post.blocks@.subrange(0, i as int)) is None,
        decreases n - i,
    {
        let found = block_image(&post.blocks[i]);
        assert(post.blocks@.subrange(0, i + 1).drop_last() =~= post.blocks@.subrange(0, i as int));
        if found.is_some() {
            proof {
                lemma_first_image_stays(post.blocks@, (i + 1) as nat);
            }
            return found;
        }
        i = i + 1;
    }
    assert(post.blocks@.subrange(0, n as int) =~= post.blocks@);
    None
}

proof fn lemma_first_image_stays(blocks: Seq<Block>, k: nat)
    requires
        k <= blocks.len(),
        first_image(blocks.subrange(0, k as int)) is Some,
    ensures
        first_image(blocks) == first_image(blocks.subrange(0, k as int)),
    decreases blocks.len() - k,
{
    if k < blocks.len() {
        assert(blocks.subrange(0, (k + 1) as int).drop_last() =~= blocks.subrange(0, k as int));
        lemma_first_image_stays(blocks, (k + 1) as nat);
    } else {
        assert(blocks.subrange(0, k as int) =~= blocks);
    }
}

/// The rendering of `blocks` in order, or the first resource error.
pub open spec fn blocks_rendering(blocks: Seq<Block>, static_root: Seq<char>, source_dir: Seq<char>) -> Result<
    Rendering,
    ResourceError,
>
    decreases blocks.len(),
{
    if blocks.len() == 0 {
        Ok(nothing_rendered())
    } else {
        match blocks_rendering(blocks.drop_last(), static_root, source_dir) {
            Err(e) => Err(e),
            Ok(before) => match block_rendering(blocks.last(), static_root, source_dir) {
                Err(e) => Err(e),
                Ok(r) => Ok(followed_by(before, r)),
            },
        }
    }
}

/// The preview image of a post: the URL path of its first image attachment
/// (in block order, descending into rows), where that URL parses.
pub open spec fn preview_image(post: Post) -> Option<Seq<char>> {
    match first_image(post.blocks@) {
        Some(url) => match parsed_url(url) {
            Some(u) => Some(u.path),
            None => None,
        },
        None => None,
    }
}

/// The preview image's path as the front matter gives it: empty where there
/// is none.
pub open spec fn preview_path(post: Post) -> Seq<char> {
    match preview_image(post) {
        Some(p) => p,
        None => Seq::empty(),
    }
}

/// Try to find a preview image for this post: the URL path of its first
/// image attachment, in block order, descending into rows.
pub fn find_preview_image(post: &Post) -> (r: Option<String>)
    ensures
        text_of(r) == preview_image(*post),
{
    match first_image_url(post) {
        Some(url) => match parse_url(url.as_str()) {
            Some(u) => Some(u.path),
            None => None,
        },
        None => None,
    }
}

/// A post's front matter: title, date and template, its tags under
/// `taxonomies`, its preview image under `extra`.
pub open spec fn post_front_matter(title: Seq<char>, date: Seq<char>, tags: Seq<Seq<char>>, preview: Seq<char>) -> Seq<
    char,
> {
    toml_document(
        seq![
            ("title"@, TomlItemModel::Text(title)),
            ("date"@, TomlItemModel::Text(date)),
            ("template"@, TomlItemModel::Text("project-post.html"@)),
        ],
        seq![
            ("taxonomies"@, seq![("tags"@, TomlItemModel::TextList(tags))]),
            ("extra"@, seq![("preview_image"@, TomlItemModel::Text(preview))]),
        ],
    )
}

/// Writes a post's front matter.
pub fn post_front_matter_text(title: &str, date: &str, tags: &Vec<String>, preview: &str) -> (r: String)
    ensures
        r@ == post_front_matter(title@, date@, texts(*tags), preview@),
{
    let mut entries: Vec<(String, TomlItem)> = Vec::new();
    entries.push(text_entry("title", title));
    entries.push(text_entry("date", date));
    entries.push(text_entry("template", "project-post.html"));
    let mut taxonomies: Vec<(String, TomlItem)> = Vec::new();
    taxonomies.push(("tags".to_owned(), TomlItem::TextList(copy_texts(tags))));
    let mut extra: Vec<(String, TomlItem)> = Vec::new();
    extra.push(text_entry("preview_image", preview));
    let ghost taxonomies_model = entries_view(taxonomies);
    let ghost extra_model = entries_view(extra);
    assert(taxonomies_model =~= seq![("tags"@, TomlItemModel::TextList(texts(*tags)))]);
    assert(extra_model =~= seq![("preview_image"@, TomlItemModel::Text(preview@))]);
    let mut sections: Vec<(String, Vec<(String, TomlItem)>)> = Vec::new();
    sections.push(("taxonomies".to_owned(), taxonomies));
    sections.push(("extra".to_owned(), extra));
    assert(entries_view(entries) =~= seq![
        ("title"@, TomlItemModel::Text(title@)),
        ("date"@, TomlItemModel::Text(date@)),
        ("template"@, TomlItemModel::Text("project-post.html"@)),
    ]);
    assert(sections_view(sections) =~= seq![("taxonomies"@, taxonomies_model), ("extra"@, extra_model)]);
    toml_table_text(&entries, &sections)
}

/// Where the document of the post at `page_url` goes under `content_root`.
pub open spec fn post_path(content_root: Seq<char>, page_url: Seq<char>) -> Option<Seq<char>> {
    match parsed_url(page_url) {
        Some(u) => Some(path_join(content_root, without_leading_slashes(u.path + ".md"@))),
        None => None,
    }
}

/// The post as assembled with `date` as its publication date: the document
/// path, the document (front matter, then the blocks' markup), the copies
/// and the unknown attachment kinds; or the first error.
pub open spec fn assembled_post(config: Config, source_dir: Seq<char>, post: Post, date: Seq<char>) -> Result<
    PostModel,
    PostError,
> {
    match post_path(config.content_path@, post.single_post_page_url@) {
        None => Err(PostError::BadPageUrl),
        Some(path) => match blocks_rendering(post.blocks@, config.static_path@, source_dir) {
            Err(e) => Err(PostError::Resource(e)),
            Ok(body) => Ok(
                PostModel {
                    path,
                    text: document(
                        post_front_matter(post.headline@, date, texts(post.tags), preview_path(post)),
                        body.text,
                    ),
                    copies: body.copies,
                    unknown_kinds: body.unknown_kinds,
                },
            ),
        },
    }
}

/// Assembles the post in one post directory of the export.
#[derive(Clone, Debug)]
pub struct PostProcessor {
    /// The post's directory in the export, which holds its media.
    pub path: String,
    pub config: Config,
}

impl PostProcessor {
    pub fn new(path: String, config: Config) -> (r: Self)
        ensures
            r.path == path,
            r.config == config,
    {
        PostProcessor { path, config }
    }

    /// The post's metadata document in its directory.
    pub fn post_json_path(&self) -> (r: String)
        ensures
            r@ == path_join(self.path@, "post.json"@),
    {
        join_path(self.path.as_str(), "post.json")
    }

    /// Assembles `post`, with its publication time formatted as RFC 3339.
    /// Fails with `UnformattableDate` only where the time has no such form;
    /// otherwise the outcome is that of `assemble` with that date.
    pub fn process(&self, post: &Post) -> (r: Result<PostDocument, PostError>)
        ensures
            formattable(post.published_at) ==> !(r matches Err(PostError::UnformattableDate)),
            r matches Err(PostError::UnformattableDate) || ({
                let date = rfc3339(
                    local_seconds(post.published_at),
                    post.published_at.nanosecond as int,
                    post.published_at.offset_seconds as int,
                );
                match r {
                    Ok(d) => assembled_post(self.config, self.path@, *post, date) == Ok::<PostModel, PostError>(d@),
                    Err(e) => assembled_post(self.config, self.path@, *post, date) == Err::<PostModel, PostError>(e),
                }
            }),
    {
        match timestamp_text(&post.published_at) {
            Some(date) => self.assemble(post, date.as_str()),
            None => Err(PostError::UnformattableDate),
        }
    }

    /// Assembles `post` with `date` as its publication date.
    pub fn assemble(&self, post: &Post, date: &str) -> (r: Result<PostDocument, PostError>)
        ensures
            match r {
                Ok(d) => assembled_post(self.config, self.path@, *post, date@) == Ok::<PostModel, PostError>(d@),
                Err(e) => assembled_post(self.config, self.path@, *post, date@) == Err::<PostModel, PostError>(e),
            },
    {
        let u = match parse_url(post.single_post_page_url.as_str()) {
            Some(u) => u,
            None => return Err(PostError::BadPageUrl),
        };
        let mut page = u.path.clone();
        page.append(".md");
        let path = join_path(self.config.content_path.as_str(), strip_leading_slashes(page.as_str()));
        let mut out = Rendered::new();
        match self.write_post(&mut out, post, date) {
            Ok(()) => {},
            Err(e) => return Err(PostError::Resource(e)),
        }
        let doc = PostDocument { path, text: out.text, copies: out.copies, unknown_kinds: out.unknown_kinds };
        proof {
            let body = blocks_rendering(post.blocks@, self.config.static_path@, self.path@)->Ok_0;
            assert(doc@.copies =~= body.copies);
            assert(doc@.unknown_kinds =~= body.unknown_kinds);
            assert(doc@.text =~= Seq::empty() + document(
                post_front_matter(post.headline@, date@, texts(post.tags), preview_path(*post)),
                body.text,
            ));
        }
        Ok(doc)
    }

    /// Writes the front matter and then each block of `post` after what `out`
    /// holds.
    fn write_post(&self, out: &mut Rendered, post: &Post, date: &str) -> (r: Result<(), ResourceError>)
        ensures
            match r {
                Ok(()) => blocks_rendering(post.blocks@, self.config.static_path@, self.path@) is Ok && final(out)@
                    == followed_by(
                    old(out)@,
                    Rendering {
                        text: document(
                            post_front_matter(post.headline@, date@, texts(post.tags), preview_path(*post)),
                            blocks_rendering(post.blocks@, self.config.static_path@, self.path@)->Ok_0.text,
                        ),
                        ..blocks_rendering(post.blocks@, self.config.static_path@, self.path@)->Ok_0
                    },
                ),
                Err(e) => blocks_rendering(post.blocks@, self.config.static_path@, self.path@) == Err::<
                    Rendering,
                    ResourceError,
                >(e),
            },
    {
        let ghost start = out@;
        let preview = match find_preview_image(post) {
            Some(p) => p,
            None => String::new(),
        };
        out.text.append("+++\n");
        out.text.append(post_front_matter_text(post.headline.as_str(), date, &post.tags, preview.as_str()).as_str());
        out.text.append("\n+++\n\n");
        let ghost front = post_front_matter(post.headline@, date@, texts(post.tags), preview_path(*post));
        assert(out.text@ =~= start.text + ("+++\n"@ + front + "\n+++\n\n"@));
        let ghost head = out@;
        let n = post.blocks.len();
        let mut i: usize = 0;
        assert(post.blocks@.subrange(0, 0) =~= Seq::<Block>::empty());
        assert(out@.copies =~= head.copies + Seq::empty());
        assert(out@.unknown_kinds =~= head.unknown_kinds + Seq::empty());
        assert(out@.text =~= head.text + Seq::empty());
        while i < n
            invariant
                n == post.blocks@.len(),
                i <= n,
                blocks_rendering(post.blocks@.subrange(0, i as int), self.config.static_path@, self.path@) is Ok,
                out@ == followed_by(
                    head,
                    blocks_rendering(post.blocks@.subrange(0, i as int), self.config.static_path@, self.path@)->Ok_0,
                ),
            decreases n - i,
        {
            let ghost prefix = post.blocks@.subrange(0, i as int);
            let ghost next = post.blocks@.subrange(0, i + 1);
            assert(next.drop_last() =~= prefix);
            let r = write_block(out, &post.blocks[i], self.config.static_path.as_str(), self.path.as_str());
            match r {
                Ok(()) => {},
                Err(e) => {
                    proof {
                        lemma_blocks_failure_persists(post.blocks@, (i + 1) as nat, self.config.static_path@, self.path@, e);
                    }
                    return Err(e);
                },
            }
            proof {
                let before = blocks_rendering(prefix, self.config.static_path@, self.path@)->Ok_0;
                let after = blocks_rendering(next, self.config.static_path@, self.path@)->Ok_0;
                assert(out@.text =~= head.text + after.text);
                assert(out@.copies =~= head.copies + after.copies);
                assert(out@.unknown_kinds =~= head.unknown_kinds + after.unknown_kinds);
            }
            i = i + 1;
        }
        proof {
            assert(post.blocks@.subrange(0, n as int) =~= post.blocks@);
            let body = blocks_rendering(post.blocks@, self.config.static_path@, self.path@)->Ok_0;
            assert(out@.text =~= start.text + document(front, body.text));
            assert(out@.copies =~= start.copies + body.copies);
            assert(out@.unknown_kinds =~= start.unknown_kinds + body.unknown_kinds);
        }
        Ok(())
    }
}

/// A post whose one block is prose (no absolute URL) and whose page URL
/// parses assembles into its front matter followed by that prose between
/// blank lines, and asks for no copies.
pub proof fn lemma_prose_post(config: Config, source_dir: Seq<char>, post: Post, date: Seq<char>)
    requires
        post.blocks@.len() == 1,
        post.blocks@[0] is Markdown,
        parsed_url(post.blocks@[0]->Markdown_markdown.content@) is None,
        parsed_url(post.single_post_page_url@) is Some,
    ensures
        ({
            let content = post.blocks@[0]->Markdown_markdown.content@;
            &&& assembled_post(config, source_dir, post, date) is Ok
            &&& assembled_post(config, source_dir, post, date)->Ok_0.text == document(
                post_front_matter(post.headline@, date, texts(post.tags), preview_path(post)),
                "\n"@ + content + "\n\n"@ + "\n"@,
            )
            &&& assembled_post(config, source_dir, post, date)->Ok_0.copies.len() == 0
        }),
{
    let content = post.blocks@[0]->Markdown_markdown.content@;
    let blocks = post.blocks@;
    assert(blocks.drop_last().len() == 0);
    assert(blocks_rendering(blocks.drop_last(), config.static_path@, source_dir) == Ok::<Rendering, ResourceError>(nothing_rendered()));
    assert(blocks.last() == blocks[0]);
    assert(markdown_markup(content) == "\n"@ + content + "\n\n"@);
    let r = blocks_rendering(blocks, config.static_path@, source_dir);
    assert(block_rendering(blocks[0], config.static_path@, source_dir) == Ok::<Rendering, ResourceError>(
        Rendering { text: markdown_markup(content) + "\n"@, copies: Seq::empty(), unknown_kinds: Seq::empty() },
    ));
    assert(r->Ok_0.text =~= "\n"@ + content + "\n\n"@ + "\n"@);
    assert(r->Ok_0.copies =~= Seq::<CopyModel>::empty());
}

proof fn lemma_blocks_failure_persists(
    blocks: Seq<Block>,
    k: nat,
    static_root: Seq<char>,
    source_dir: Seq<char>,
    e: ResourceError,
)
    requires
        k <= blocks.len(),
        blocks_rendering(blocks.subrange(0, k as int), static_root, source_dir) == Err::<Rendering, ResourceError>(e),
    ensures
        blocks_rendering(blocks, static_root, source_dir) == Err::<Rendering, ResourceError>(e),
    decreases blocks.len() - k,
{
    if k < blocks.len() {
        assert(blocks.subrange(0, (k + 1) as int).drop_last() =~= blocks.subrange(0, k as int));
        lemma_blocks_failure_persists(blocks, (k + 1) as nat, static_root, source_dir, e);
    } else {
        assert(blocks.subrange(0, k as int) =~= blocks);
    }
}

} // verus!
