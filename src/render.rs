use vstd::prelude::*;

use crate::cohost::{AttachmentBlock, Block, MarkdownBlock};
use crate::resource::{
    copy_static_resource, percent_decoded, resolution, resolvable, CopyJob, CopyModel, ResourceError,
};
use crate::text::{
    ends_with, escape_quotes, escaped, has_suffix, path_join, same_text, without_leading_slashes,
};
use crate::weburl::{first_value, parse_url, parsed_url, query_value, text_of, UrlModel, UrlParts};

verus! {

broadcast use vstd::std_specs::vec::group_vec_axioms, vstd::seq::group_seq_axioms;

/// What rendering produces: markup, the copies that publish the media it
/// refers to, and the attachment kinds it could not render.
pub ghost struct Rendering {
    pub text: Seq<char>,
    pub copies: Seq<CopyModel>,
    pub unknown_kinds: Seq<Seq<char>>,
}

pub open spec fn nothing_rendered() -> Rendering {
    Rendering { text: Seq::empty(), copies: Seq::empty(), unknown_kinds: Seq::empty() }
}

/// `a` followed by `b`.
pub open spec fn followed_by(a: Rendering, b: Rendering) -> Rendering {
    Rendering {
        text: a.text + b.text,
        copies: a.copies + b.copies,
        unknown_kinds: a.unknown_kinds + b.unknown_kinds,
    }
}

/// The identifier of the video that `u` names, where its host is a video
/// host's domain and its query has a `v` parameter (the first one counts).
pub open spec fn video_param(u: UrlModel) -> Option<Seq<char>> {
    match u.domain {
        Some(d) => if ends_with(d, "youtube.com"@) {
            first_value(u.query, "v"@)
        } else {
            None
        },
        None => None,
    }
}

/// A hyperlink whose target and visible text are both `href`.
pub open spec fn link_markup(href: Seq<char>) -> Seq<char> {
    "<a class=\"url\" target=\"_blank\" rel=\"noopener noreferrer\" href=\""@ + href + "\">"@ + href
        + "</a>\n"@
}

pub open spec fn video_markup(u: UrlModel) -> Seq<char> {
    match video_param(u) {
        Some(v) => "{{ youtube(v=\""@ + escaped(v) + "\") }}\n"@,
        None => Seq::empty(),
    }
}

/// A markdown block: an embed holding a link (and a video, where the URL
/// names one) when the whole content parses as a URL, else the content
/// itself between blank lines.
pub open spec fn markdown_markup(content: Seq<char>) -> Seq<char> {
    match parsed_url(content) {
        Some(u) => "<div class=\"embed\">\n"@ + video_markup(u) + link_markup(content) + "</div>\n"@,
        None => "\n"@ + content + "\n\n"@,
    }
}

pub open spec fn alt_text_of(a: AttachmentBlock) -> Seq<char> {
    match a.alt_text {
        Some(t) => t@,
        None => Seq::empty(),
    }
}

pub open spec fn is_known_kind(kind: Seq<char>) -> bool {
    kind == "image"@ || kind == "audio"@
}

/// The embed directive of an attachment published at `path`.
pub open spec fn attachment_directive(a: AttachmentBlock, path: Seq<char>) -> Seq<char> {
    if a.kind@ == "image"@ {
        "{{ image(path=\""@ + escaped(path) + "\", alt=\""@ + escaped(alt_text_of(a)) + "\") }}\n"@
    } else if a.kind@ == "audio"@ {
        "{{ audio(path=\""@ + escaped(path) + "\") }}\n"@
    } else {
        Seq::empty()
    }
}

pub open spec fn attachment_rendering(a: AttachmentBlock, static_root: Seq<char>, source_dir: Seq<char>) -> Result<
    Rendering,
    ResourceError,
> {
    match resolution(static_root, source_dir, a.file_url@) {
        Err(e) => Err(e),
        Ok(res) => Ok(
            Rendering {
                text: "<div class=\"attachment\">\n"@ + attachment_directive(a, res.local_path)
                    + "</div>\n"@ + "\n"@,
                copies: seq![res.copy],
                unknown_kinds: if is_known_kind(a.kind@) {
                    Seq::empty()
                } else {
                    seq![a.kind@]
                },
            },
        ),
    }
}

pub open spec fn nested_count(b: Block) -> nat {
    match b {
        Block::AttachmentRow { attachments } => attachments.len() as nat,
        _ => 0,
    }
}

/// A row's rendering around the rendering `inner` of its nested blocks.
pub open spec fn row_around(inner: Result<Rendering, ResourceError>) -> Result<Rendering, ResourceError> {
    match inner {
        Err(e) => Err(e),
        Ok(r) => Ok(
            Rendering { text: "<div class=\"row\">\n"@ + r.text + "</div>\n"@ + "\n"@, ..r },
        ),
    }
}

/// For a row, the rendering of its first `n` nested blocks, in order; for any
/// other block, the rendering of the block.
pub open spec fn rendered_prefix(
    b: Block,
    n: nat,
    static_root: Seq<char>,
    source_dir: Seq<char>,
) -> Result<Rendering, ResourceError>
    decreases b, n,
{
    match b {
        Block::Markdown { markdown } => Ok(
            Rendering {
                text: markdown_markup(markdown.content@) + "\n"@,
                copies: Seq::empty(),
                unknown_kinds: Seq::empty(),
            },
        ),
        Block::Attachment { attachment } => attachment_rendering(attachment, static_root, source_dir),
        Block::AttachmentRow { attachments } => if n == 0 || n > attachments.len() {
            Ok(nothing_rendered())
        } else {
            let child = attachments@[n - 1];
            match rendered_prefix(b, (n - 1) as nat, static_root, source_dir) {
                Err(e) => Err(e),
                Ok(before) => {
                    let last = match child {
                        Block::AttachmentRow { attachments: inner } => row_around(
                            rendered_prefix(child, inner.len() as nat, static_root, source_dir),
                        ),
                        _ => rendered_prefix(child, 0, static_root, source_dir),
                    };
                    match last {
                        Err(e) => Err(e),
                        Ok(r) => Ok(followed_by(before, r)),
                    }
                },
            }
        },
    }
}

/// The rendering of one block: its markup followed by a blank line, the
/// copies of the media it refers to, and the kinds it could not render; or
/// the first resource that could not be resolved.
pub open spec fn block_rendering(b: Block, static_root: Seq<char>, source_dir: Seq<char>) -> Result<
    Rendering,
    ResourceError,
> {
    match b {
        Block::AttachmentRow { attachments } => row_around(
            rendered_prefix(b, attachments.len() as nat, static_root, source_dir),
        ),
        _ => rendered_prefix(b, 0, static_root, source_dir),
    }
}

/// The output of rendering, built up block by block.
#[derive(Debug)]
pub struct Rendered {
    pub text: String,
    pub copies: Vec<CopyJob>,
    pub unknown_kinds: Vec<String>,
}

pub open spec fn copy_view(c: CopyJob) -> CopyModel {
    c@
}

pub open spec fn string_view(s: String) -> Seq<char> {
    s@
}

impl View for Rendered {
    type V = Rendering;

    open spec fn view(&self) -> Rendering {
        Rendering {
            text: self.text@,
            copies: self.copies@.map_values(|c: CopyJob| copy_view(c)),
            unknown_kinds: self.unknown_kinds@.map_values(|k: String| string_view(k)),
        }
    }
}

impl Rendered {
    /// Nothing rendered yet.
    pub fn new() -> (r: Rendered)
        ensures
            r@ == nothing_rendered(),
    {
        let r = Rendered { text: String::new(), copies: Vec::new(), unknown_kinds: Vec::new() };
        assert(r@.copies =~= Seq::empty());
        assert(r@.unknown_kinds =~= Seq::empty());
        r
    }
}

/// The video identifier that `u` carries, if it names a video.
pub fn video_id(u: &UrlParts) -> (r: Option<String>)
    ensures
        text_of(r) == video_param(u@),
{
    match &u.domain {
        Some(d) => if has_suffix(d.as_str(), "youtube.com") {
            query_value(u, "v")
        } else {
            None
        },
        None => None,
    }
}

/// Renders a markdown block's content, then a blank line.
pub fn write_markdown(out: &mut Rendered, content: &str)
    ensures
        final(out)@ == followed_by(
            old(out)@,
            Rendering { text: markdown_markup(content@) + "\n"@, copies: Seq::empty(), unknown_kinds: Seq::empty() },
        ),
{
    let ghost start = out.text@;
    match parse_url(content) {
        Some(u) => {
            out.text.append("<div class=\"embed\">\n");
            let ghost before_video = out.text@;
            match video_id(&u) {
                Some(v) => {
                    out.text.append("{{ youtube(v=\"");
                    out.text.append(escape_quotes(v.as_str()).as_str());
                    out.text.append("\") }}\n");
                },
                None => {},
            }
            assert(out.text@ =~= before_video + video_markup(u@));
            let ghost before_link = out.text@;
            out.text.append("<a class=\"url\" target=\"_blank\" rel=\"noopener noreferrer\" href=\"");
            out.text.append(content);
            out.text.append("\">");
            out.text.append(content);
            out.text.append("</a>\n");
            assert(out.text@ =~= before_link + link_markup(content@));
            out.text.append("</div>\n");
        },
        None => {
            out.text.append("\n");
            out.text.append(content);
            out.text.append("\n\n");
        },
    }
    out.text.append("\n");
    assert(out.text@ =~= start + (markdown_markup(content@) + "\n"@));
    assert(out@.copies =~= old(out)@.copies + Seq::empty());
    assert(out@.unknown_kinds =~= old(out)@.unknown_kinds + Seq::empty());
}

/// Renders an attachment block, then a blank line, and records the copy that
/// publishes its file (under `static_root`, from `source_dir`).
pub fn write_attachment(out: &mut Rendered, a: &AttachmentBlock, static_root: &str, source_dir: &str) -> (r: Result<
    (),
    ResourceError,
>)
    ensures
        match r {
            Ok(()) => attachment_rendering(*a, static_root@, source_dir@) is Ok && final(out)@ == followed_by(
                old(out)@,
                attachment_rendering(*a, static_root@, source_dir@)->Ok_0,
            ),
            Err(e) => attachment_rendering(*a, static_root@, source_dir@) == Err::<Rendering, ResourceError>(e),
        },
{
    let res = match copy_static_resource(static_root, source_dir, a.file_url.as_str()) {
        Ok(res) => res,
        Err(e) => return Err(e),
    };
    let ghost start = out.text@;
    let ghost kinds = out@.unknown_kinds;
    out.text.append("<div class=\"attachment\">\n");
    let ghost before = out.text@;
    if same_text(a.kind.as_str(), "image") {
        let alt: &str = match &a.alt_text {
            Some(t) => t.as_str(),
            None => "",
        };
        proof {
            reveal_strlit("");
        }
        assert(alt@ == alt_text_of(*a));
        out.text.append("{{ image(path=\"");
        out.text.append(escape_quotes(res.local_path.as_str()).as_str());
        out.text.append("\", alt=\"");
        out.text.append(escape_quotes(alt).as_str());
        out.text.append("\") }}\n");
    } else if same_text(a.kind.as_str(), "audio") {
        out.text.append("{{ audio(path=\"");
        out.text.append(escape_quotes(res.local_path.as_str()).as_str());
        out.text.append("\") }}\n");
    } else {
        out.unknown_kinds.push(a.kind.clone());
    }
    assert(out.text@ =~= before + attachment_directive(*a, res.local_path@));
    out.text.append("</div>\n");
    out.text.append("\n");
    let ghost copies = out@.copies;
    out.copies.push(res.copy);
    let ghost expected = attachment_rendering(*a, static_root@, source_dir@)->Ok_0;
    assert(out.text@ =~= start + expected.text);
    assert(out@.copies =~= copies + expected.copies);
    assert(out@.unknown_kinds =~= kinds + expected.unknown_kinds);
    Ok(())
}

/// Once a nested block of a row fails to render, the row's rendering fails
/// with the same error.
proof fn lemma_failure_persists(
    b: Block,
    k: nat,
    m: nat,
    static_root: Seq<char>,
    source_dir: Seq<char>,
    e: ResourceError,
)
    requires
        b is AttachmentRow,
        k <= m <= nested_count(b),
        rendered_prefix(b, k, static_root, source_dir) == Err::<Rendering, ResourceError>(e),
    ensures
        rendered_prefix(b, m, static_root, source_dir) == Err::<Rendering, ResourceError>(e),
    decreases m - k,
{
    if k < m {
        lemma_failure_persists(b, k, (m - 1) as nat, static_root, source_dir, e);
    }
}

/// Renders one block (recursing into rows) after what `out` holds.
pub fn write_block(out: &mut Rendered, block: &Block, static_root: &str, source_dir: &str) -> (r: Result<
    (),
    ResourceError,
>)
    ensures
        match r {
            Ok(()) => block_rendering(*block, static_root@, source_dir@) is Ok && final(out)@ == followed_by(
                old(out)@,
                block_rendering(*block, static_root@, source_dir@)->Ok_0,
            ),
            Err(e) => block_rendering(*block, static_root@, source_dir@) == Err::<Rendering, ResourceError>(e),
        },
    decreases block,
{
    match block {
        Block::Markdown { markdown } => {
            write_markdown(out, markdown.content.as_str());
            Ok(())
        },
        Block::Attachment { attachment } => write_attachment(out, attachment, static_root, source_dir),
        Block::AttachmentRow { attachments } => {
            let ghost start = out@;
            out.text.append("<div class=\"row\">\n");
            let ghost head = out@;
            let n = attachments.len();
            let mut i: usize = 0;
            while i < n
                invariant
                    n == attachments@.len(),
                    n == nested_count(*block),
                    *block == (Block::AttachmentRow { attachments: *attachments }),
                    i <= n,
                    rendered_prefix(*block, i as nat, static_root@, source_dir@) is Ok,
                    out@ == followed_by(head, rendered_prefix(*block, i as nat, static_root@, source_dir@)->Ok_0),
                decreases n - i,
            {
                proof {
                    assert(decreases_to!(*attachments => attachments[i as int]));
                }
                let r = write_block(out, &attachments[i], static_root, source_dir);
                match r {
                    Ok(()) => {},
                    Err(e) => {
                        proof {
                            assert(rendered_prefix(*block, (i + 1) as nat, static_root@, source_dir@) == Err::<Rendering, ResourceError>(e));
                            lemma_failure_persists(*block, (i + 1) as nat, n as nat, static_root@, source_dir@, e);
                        }
                        return Err(e);
                    },
                }
                proof {
                    let prev = rendered_prefix(*block, i as nat, static_root@, source_dir@)->Ok_0;
                    let child = block_rendering(attachments@[i as int], static_root@, source_dir@)->Ok_0;
                    let next = rendered_prefix(*block, (i + 1) as nat, static_root@, source_dir@)->Ok_0;
                    assert(next == followed_by(prev, child));
                    assert(out@.text =~= head.text + next.text);
                    assert(out@.copies =~= head.copies + next.copies);
                    assert(out@.unknown_kinds =~= head.unknown_kinds + next.unknown_kinds);
                }
                i = i + 1;
            }
            out.text.append("</div>\n");
            out.text.append("\n");
            proof {
                let inner = rendered_prefix(*block, n as nat, static_root@, source_dir@)->Ok_0;
                let whole = block_rendering(*block, static_root@, source_dir@)->Ok_0;
                assert(out@.text =~= start.text + whole.text);
                assert(out@.copies =~= start.copies + whole.copies);
                assert(out@.unknown_kinds =~= start.unknown_kinds + whole.unknown_kinds);
            }
            Ok(())
        },
    }
}

/// A markdown block whose content parses as an absolute URL always renders a
/// hyperlink whose target and visible text are exactly that content.
pub proof fn lemma_url_block_links(m: MarkdownBlock, static_root: Seq<char>, source_dir: Seq<char>)
    requires
        parsed_url(m.content@) is Some,
    ensures
        ({
            let b = Block::Markdown { markdown: m };
            let text = block_rendering(b, static_root, source_dir)->Ok_0.text;
            let link = link_markup(m.content@);
            block_rendering(b, static_root, source_dir) is Ok && exists|i: int|
                0 <= i && i + link.len() <= text.len() && #[trigger] text.subrange(i, i + link.len()) == link
        }),
{
    let b = Block::Markdown { markdown: m };
    let u = parsed_url(m.content@)->Some_0;
    let text = block_rendering(b, static_root, source_dir)->Ok_0.text;
    let link = link_markup(m.content@);
    let head = "<div class=\"embed\">\n"@ + video_markup(u);
    assert(text =~= head + link + ("</div>\n"@ + "\n"@));
    assert(text.subrange(head.len() as int, (head.len() + link.len()) as int) =~= link);
}

/// A markdown block whose content is no absolute URL renders as the content
/// itself, unescaped, between blank lines.
pub proof fn lemma_prose_block_verbatim(m: MarkdownBlock, static_root: Seq<char>, source_dir: Seq<char>)
    requires
        parsed_url(m.content@) is None,
    ensures
        ({
            let b = Block::Markdown { markdown: m };
            block_rendering(b, static_root, source_dir) == Ok::<Rendering, ResourceError>(
                Rendering { text: "\n"@ + m.content@ + "\n\n"@ + "\n"@, copies: Seq::empty(), unknown_kinds: Seq::empty() },
            )
        }),
{
}

/// An image or audio attachment whose file URL can be resolved renders; its
/// path argument is the percent-decoded path of its file URL (quotes
/// escaped), and it brings exactly one copy, to that path under the static
/// root.
pub proof fn lemma_media_path_is_decoded(a: AttachmentBlock, static_root: Seq<char>, source_dir: Seq<char>)
    requires
        a.kind@ == "image"@ || a.kind@ == "audio"@,
        resolvable(a.file_url@),
    ensures
        block_rendering(Block::Attachment { attachment: a }, static_root, source_dir) is Ok,
        ({
            let r = block_rendering(Block::Attachment { attachment: a }, static_root, source_dir)->Ok_0;
            let path = percent_decoded(parsed_url(a.file_url@)->Some_0.path)->Some_0;
            let arg = "path=\""@ + escaped(path) + "\""@;
            &&& r.copies == seq![
                CopyModel {
                    source: r.copies[0].source,
                    destination: path_join(static_root, without_leading_slashes(path)),
                },
            ]
            &&& exists|i: int| 0 <= i && i + arg.len() <= r.text.len() && #[trigger] r.text.subrange(i, i + arg.len()) == arg
        }),
{
    let r = block_rendering(Block::Attachment { attachment: a }, static_root, source_dir)->Ok_0;
    let path = percent_decoded(parsed_url(a.file_url@)->Some_0.path)->Some_0;
    let arg = "path=\""@ + escaped(path) + "\""@;
    let open = "<div class=\"attachment\">\n"@;
    if a.kind@ == "image"@ {
        reveal_strlit("{{ image(");
        reveal_strlit("path=\"");
        reveal_strlit("{{ image(path=\"");
        reveal_strlit("\", alt=\"");
        reveal_strlit("\"");
        reveal_strlit(", alt=\"");
        let pre = "{{ image("@;
        assert("{{ image(path=\""@ =~= pre + "path=\""@);
        assert("\", alt=\""@ =~= "\""@ + ", alt=\""@);
        let rest = ", alt=\""@ + escaped(alt_text_of(a)) + "\") }}\n"@ + "</div>\n"@ + "\n"@;
        assert(r.text =~= (open + pre) + arg + rest);
        assert(r.text.subrange((open + pre).len() as int, ((open + pre).len() + arg.len()) as int) =~= arg);
    } else {
        reveal_strlit("{{ audio(");
        reveal_strlit("path=\"");
        reveal_strlit("{{ audio(path=\"");
        reveal_strlit("\") }}\n");
        reveal_strlit("\"");
        reveal_strlit(") }}\n");
        let pre = "{{ audio("@;
        assert("{{ audio(path=\""@ =~= pre + "path=\""@);
        assert("\") }}\n"@ =~= "\""@ + ") }}\n"@);
        let rest = ") }}\n"@ + "</div>\n"@ + "\n"@;
        assert(r.text =~= (open + pre) + arg + rest);
        assert(r.text.subrange((open + pre).len() as int, ((open + pre).len() + arg.len()) as int) =~= arg);
    }
}

/// Escaped text holds no double quote.
pub proof fn lemma_escaped_has_no_quote(s: Seq<char>)
    ensures
        forall|i: int| 0 <= i < escaped(s).len() ==> escaped(s)[i] != '"',
    decreases s.len(),
{
    reveal_strlit("&quot;");
    if s.len() > 0 {
        lemma_escaped_has_no_quote(s.drop_last());
        let e = escaped(s.drop_last());
        let t = if s.last() == '"' {
            "&quot;"@
        } else {
            seq![s.last()]
        };
        assert(escaped(s) == e + t);
        assert forall|i: int| 0 <= i < escaped(s).len() implies escaped(s)[i] != '"' by {
            if i >= e.len() {
                assert(escaped(s)[i] == t[i - e.len()]);
            }
        }
    }
}

/// An image attachment whose file URL can be resolved renders, and carries
/// its alt text (empty where it has none) as the `alt` argument with every
/// double quote escaped, so the alt text brings no double quote of its own
/// into the markup.
pub proof fn lemma_alt_text_escaped(a: AttachmentBlock, static_root: Seq<char>, source_dir: Seq<char>)
    requires
        a.kind@ == "image"@,
        resolvable(a.file_url@),
    ensures
        block_rendering(Block::Attachment { attachment: a }, static_root, source_dir) is Ok,
        ({
            let r = block_rendering(Block::Attachment { attachment: a }, static_root, source_dir)->Ok_0;
            let arg = "alt=\""@ + escaped(alt_text_of(a)) + "\""@;
            &&& exists|i: int| 0 <= i && i + arg.len() <= r.text.len() && #[trigger] r.text.subrange(i, i + arg.len()) == arg
            &&& forall|j: int| 0 <= j < escaped(alt_text_of(a)).len() ==> escaped(alt_text_of(a))[j] != '"'
        }),
{
    let r = block_rendering(Block::Attachment { attachment: a }, static_root, source_dir)->Ok_0;
    let path = percent_decoded(parsed_url(a.file_url@)->Some_0.path)->Some_0;
    let arg = "alt=\""@ + escaped(alt_text_of(a)) + "\""@;
    lemma_escaped_has_no_quote(alt_text_of(a));
    reveal_strlit("\", alt=\"");
    reveal_strlit("\", ");
    reveal_strlit("alt=\"");
    reveal_strlit("\") }}\n");
    reveal_strlit("\"");
    reveal_strlit(") }}\n");
    assert("\", alt=\""@ =~= "\", "@ + "alt=\""@);
    assert("\") }}\n"@ =~= "\""@ + ") }}\n"@);
    let pre = "<div class=\"attachment\">\n"@ + "{{ image(path=\""@ + escaped(path) + "\", "@;
    let rest = ") }}\n"@ + "</div>\n"@ + "\n"@;
    assert(r.text =~= pre + arg + rest);
    assert(r.text.subrange(pre.len() as int, (pre.len() + arg.len()) as int) =~= arg);
}

/// Without double quotes in `s`, escaping leaves it as it is.
pub proof fn lemma_escape_without_quotes(s: Seq<char>)
    requires
        forall|i: int| 0 <= i < s.len() ==> s[i] != '"',
    ensures
        escaped(s) == s,
    decreases s.len(),
{
    if s.len() > 0 {
        lemma_escape_without_quotes(s.drop_last());
        assert(s =~= s.drop_last() + seq![s.last()]);
    }
}

} // verus!
