use vstd::prelude::*;

use crate::cohost::Project;
use crate::frontmatter::{
    entries_view, sections_view, text_entry, toml_document, toml_table_text, TomlItem, TomlItemModel,
};
use crate::post::Config;
use crate::resource::{copy_static_resource, resolution, CopyJob, CopyModel, ResourceError};
use crate::text::{join_path, path_join};
use crate::weburl::{parse_url, parsed_url, UrlModel, UrlParts};

verus! {

/// Where a project's files are read from and written to.
#[derive(Clone, Debug)]
pub struct ProjectPaths {
    /// The project's directory in the export.
    pub source: String,
    /// The project's metadata document.
    pub metadata: String,
    /// The directory of the project's documents.
    pub home_dir: String,
    /// The project's home document.
    pub home_document: String,
    /// The directory whose subdirectories hold one published post each.
    pub posts_dir: String,
    /// The document that lists the project's posts.
    pub post_index_document: String,
}

/// Lays out the paths of project `handle`: it is read from
/// `project/<handle>/` in the export, with metadata in `<handle>.json` and
/// posts under `posts/published/`; its documents go to `<handle>/` under
/// the content root.
pub fn project_paths(config: &Config, handle: &str) -> (r: ProjectPaths)
    ensures
        r.source@ == path_join(path_join(config.export_path@, "project"@), handle@),
        r.metadata@ == path_join(r.source@, handle@ + ".json"@),
        r.home_dir@ == path_join(config.content_path@, handle@),
        r.home_document@ == path_join(r.home_dir@, "_index.md"@),
        r.posts_dir@ == path_join(path_join(r.source@, "posts"@), "published"@),
        r.post_index_document@ == path_join(path_join(r.home_dir@, "post"@), "_index.md"@),
{
    let projects = join_path(config.export_path.as_str(), "project");
    let source = join_path(projects.as_str(), handle);
    let mut name = handle.to_owned();
    name.append(".json");
    let metadata = join_path(source.as_str(), name.as_str());
    let home_dir = join_path(config.content_path.as_str(), handle);
    let home_document = join_path(home_dir.as_str(), "_index.md");
    let posts = join_path(source.as_str(), "posts");
    let posts_dir = join_path(posts.as_str(), "published");
    let post_dir = join_path(home_dir.as_str(), "post");
    let post_index_document = join_path(post_dir.as_str(), "_index.md");
    ProjectPaths { source, metadata, home_dir, home_document, posts_dir, post_index_document }
}

pub open spec fn short_form(u: UrlModel) -> Seq<char> {
    match u.host {
        Some(h) => h + u.path,
        None => u.path,
    }
}

/// Short URL representation with no scheme: the host, then the path.
pub fn short_url(url: &UrlParts) -> (r: String)
    ensures
        r@ == short_form(url@),
{
    let mut r = match &url.host {
        Some(h) => h.clone(),
        None => String::new(),
    };
    r.append(url.path.as_str());
    r
}

/// Why a project's home could not be assembled.
#[derive(Clone, Copy, Debug, PartialEq, Eq)]
pub enum ProjectError {
    /// The project's external URL is set but does not parse.
    BadUrl,
    /// The avatar or header could not be resolved.
    Resource(ResourceError),
}

/// The project's home document and the copies of its avatar and header.
#[derive(Debug)]
pub struct ProjectHome {
    pub text: String,
    pub copies: Vec<CopyJob>,
}

pub ghost struct ProjectHomeModel {
    pub text: Seq<char>,
    pub copies: Seq<CopyModel>,
}

impl View for ProjectHome {
    type V = ProjectHomeModel;

    open spec fn view(&self) -> ProjectHomeModel {
        ProjectHomeModel { text: self.text@, copies: self.copies@.map_values(|c: CopyJob| c@) }
    }
}

/// The URL path of an optional media reference, or nothing.
pub open spec fn media_path(url: Option<String>) -> Seq<char> {
    match url {
        Some(s) => match parsed_url(s@) {
            Some(u) => u.path,
            None => Seq::empty(),
        },
        None => Seq::empty(),
    }
}

/// The values under `extra` in a project's home front matter.
pub open spec fn home_extra(p: Project, url_short: Seq<char>) -> Seq<(Seq<char>, TomlItemModel)> {
    seq![
        ("handle"@, TomlItemModel::Text(p.handle@)),
        ("display_name"@, TomlItemModel::Text(p.display_name@)),
        ("dek"@, TomlItemModel::Text(p.dek@)),
        ("description"@, TomlItemModel::Text(p.description@)),
        ("header_url"@, TomlItemModel::Text(media_path(p.header_url))),
        ("avatar_url"@, TomlItemModel::Text(media_path(p.avatar_url))),
        ("pronouns"@, TomlItemModel::Text(p.pronouns@)),
        ("url"@, TomlItemModel::Text(p.url@)),
        ("url_short"@, TomlItemModel::Text(url_short)),
        ("avatar_shape"@, TomlItemModel::Text(p.avatar_shape@)),
    ]
}

/// The front matter of a project's home, with `url_short` as the short form
/// of its external URL.
pub open spec fn home_front_matter(p: Project, url_short: Seq<char>) -> Seq<char> {
    toml_document(
        seq![
            ("sort_by"@, TomlItemModel::Text("date"@)),
            ("template"@, TomlItemModel::Text("project-home.html"@)),
            ("paginate_by"@, TomlItemModel::Integer(20)),
        ],
        seq![("extra"@, home_extra(p, url_short))],
    )
}

fn home_front_matter_text(p: &Project, url_short: &str) -> (r: String)
    ensures
        r@ == home_front_matter(*p, url_short@),
{
    let mut entries: Vec<(String, TomlItem)> = Vec::new();
    entries.push(text_entry("sort_by", "date"));
    entries.push(text_entry("template", "project-home.html"));
    entries.push(("paginate_by".to_owned(), TomlItem::Integer(20)));
    let mut extra: Vec<(String, TomlItem)> = Vec::new();
    extra.push(text_entry("handle", p.handle.as_str()));
    extra.push(text_entry("display_name", p.display_name.as_str()));
    extra.push(text_entry("dek", p.dek.as_str()));
    extra.push(text_entry("description", p.description.as_str()));
    extra.push(text_entry("header_url", optional_media_path(&p.header_url).as_str()));
    extra.push(text_entry("avatar_url", optional_media_path(&p.avatar_url).as_str()));
    extra.push(text_entry("pronouns", p.pronouns.as_str()));
    extra.push(text_entry("url", p.url.as_str()));
    extra.push(text_entry("url_short", url_short));
    extra.push(text_entry("avatar_shape", p.avatar_shape.as_str()));
    let ghost extra_model = entries_view(extra);
    assert(extra_model =~= home_extra(*p, url_short@));
    let mut sections: Vec<(String, Vec<(String, TomlItem)>)> = Vec::new();
    sections.push(("extra".to_owned(), extra));
    assert(entries_view(entries) =~= seq![
        ("sort_by"@, TomlItemModel::Text("date"@)),
        ("template"@, TomlItemModel::Text("project-home.html"@)),
        ("paginate_by"@, TomlItemModel::Integer(20)),
    ]);
    assert(sections_view(sections) =~= seq![("extra"@, extra_model)]);
    toml_table_text(&entries, &sections)
}

/// The copies that publish an optional media reference.
pub open spec fn media_copies(static_root: Seq<char>, source_dir: Seq<char>, url: Option<String>) -> Result<
    Seq<CopyModel>,
    ResourceError,
> {
    match url {
        None => Ok(Seq::empty()),
        Some(s) => match resolution(static_root, source_dir, s@) {
            Ok(r) => Ok(seq![r.copy]),
            Err(e) => Err(e),
        },
    }
}

/// A project's home: its document (the front matter, taking the avatar and
/// header paths straight from their URLs), and the copies of the avatar and
/// then the header from the project's export directory `source_dir`.
pub open spec fn assembled_home(config: Config, source_dir: Seq<char>, p: Project) -> Result<
    ProjectHomeModel,
    ProjectError,
> {
    let short = if p.url@.len() == 0 {
        Some(Seq::<char>::empty())
    } else {
        match parsed_url(p.url@) {
            Some(u) => Some(short_form(u)),
            None => None,
        }
    };
    match short {
        None => Err(ProjectError::BadUrl),
        Some(url_short) => match media_copies(config.static_path@, source_dir, p.avatar_url) {
            Err(e) => Err(ProjectError::Resource(e)),
            Ok(avatar) => match media_copies(config.static_path@, source_dir, p.header_url) {
                Err(e) => Err(ProjectError::Resource(e)),
                Ok(header) => Ok(
                    ProjectHomeModel {
                        text: "+++\n"@ + home_front_matter(p, url_short) + "\n+++\n"@,
                        copies: avatar + header,
                    },
                ),
            },
        },
    }
}

fn optional_media_path(url: &Option<String>) -> (r: String)
    ensures
        r@ == media_path(*url),
{
    match url {
        Some(s) => match parse_url(s.as_str()) {
            Some(u) => u.path,
            None => String::new(),
        },
        None => String::new(),
    }
}

fn push_media_copy(
    copies: &mut Vec<CopyJob>,
    static_root: &str,
    source_dir: &str,
    url: &Option<String>,
) -> (r: Result<(), ResourceError>)
    ensures
        match r {
            Ok(()) => media_copies(static_root@, source_dir@, *url) is Ok && final(copies)@.map_values(
                |c: CopyJob| c@,
            ) == old(copies)@.map_values(|c: CopyJob| c@) + media_copies(
                static_root@,
                source_dir@,
                *url,
            )->Ok_0,
            Err(e) => media_copies(static_root@, source_dir@, *url) == Err::<Seq<CopyModel>, ResourceError>(e),
        },
{
    match url {
        None => {
            assert(copies@.map_values(|c: CopyJob| c@) =~= copies@.map_values(|c: CopyJob| c@) + Seq::empty());
            Ok(())
        },
        Some(s) => match copy_static_resource(static_root, source_dir, s.as_str()) {
            Ok(res) => {
                copies.push(res.copy);
                assert(copies@.map_values(|c: CopyJob| c@) =~= old(copies)@.map_values(|c: CopyJob| c@) + seq![res.copy@]);
                Ok(())
            },
            Err(e) => Err(e),
        },
    }
}

/// Builds the home of `project`, whose export directory is `source_dir`.
pub fn project_home(config: &Config, source_dir: &str, project: &Project) -> (r: Result<ProjectHome, ProjectError>)
    ensures
        match r {
            Ok(h) => assembled_home(*config, source_dir@, *project) == Ok::<ProjectHomeModel, ProjectError>(h@),
            Err(e) => assembled_home(*config, source_dir@, *project) == Err::<ProjectHomeModel, ProjectError>(e),
        },
{
    let url_short = if project.url.unicode_len() == 0 {
        String::new()
    } else {
        match parse_url(project.url.as_str()) {
            Some(u) => short_url(&u),
            None => return Err(ProjectError::BadUrl),
        }
    };
    let mut copies: Vec<CopyJob> = Vec::new();
    match push_media_copy(&mut copies, config.static_path.as_str(), source_dir, &project.avatar_url) {
        Ok(()) => {},
        Err(e) => return Err(ProjectError::Resource(e)),
    }
    match push_media_copy(&mut copies, config.static_path.as_str(), source_dir, &project.header_url) {
        Ok(()) => {},
        Err(e) => return Err(ProjectError::Resource(e)),
    }
    let mut text = String::new();
    text.append("+++\n");
    text.append(home_front_matter_text(project, url_short.as_str()).as_str());
    text.append("\n+++\n");
    let home = ProjectHome { text, copies };
    proof {
        let m = assembled_home(*config, source_dir@, *project)->Ok_0;
        assert(home@.text =~= m.text);
        assert(home@.copies =~= Seq::empty() + m.copies);
    }
    Ok(home)
}

/// A project with no avatar, no header and no external URL gets a home
/// document of its front matter alone (with an empty short URL), and asks
/// for no copies.
pub proof fn lemma_plain_project_home(config: Config, source_dir: Seq<char>, p: Project)
    requires
        p.avatar_url is None,
        p.header_url is None,
        p.url@.len() == 0,
    ensures
        assembled_home(config, source_dir, p) == Ok::<ProjectHomeModel, ProjectError>(
            ProjectHomeModel {
                text: "+++\n"@ + home_front_matter(p, Seq::empty()) + "\n+++\n"@,
                copies: Seq::empty(),
            },
        ),
{
    assert(Seq::<CopyModel>::empty() + Seq::<CopyModel>::empty() =~= Seq::<CopyModel>::empty());
}

/// The document that lets the site list a project's posts.
pub open spec fn post_index_text() -> Seq<char> {
    "+++\n"@ + toml_document(
        seq![
            ("sort_by"@, TomlItemModel::Text("date"@)),
            ("transparent"@, TomlItemModel::Flag(true)),
            ("template"@, TomlItemModel::Text("404.html"@)),
            ("page_template"@, TomlItemModel::Text("blog-page.html"@)),
        ],
        Seq::empty(),
    ) + "\n+++"@
}

/// Writes the document that lets the site list a project's posts.
pub fn post_index() -> (r: String)
    ensures
        r@ == post_index_text(),
{
    let mut entries: Vec<(String, TomlItem)> = Vec::new();
    entries.push(text_entry("sort_by", "date"));
    entries.push(("transparent".to_owned(), TomlItem::Flag(true)));
    entries.push(text_entry("template", "404.html"));
    entries.push(text_entry("page_template", "blog-page.html"));
    let sections: Vec<(String, Vec<(String, TomlItem)>)> = Vec::new();
    assert(entries_view(entries) =~= seq![
        ("sort_by"@, TomlItemModel::Text("date"@)),
        ("transparent"@, TomlItemModel::Flag(true)),
        ("template"@, TomlItemModel::Text("404.html"@)),
        ("page_template"@, TomlItemModel::Text("blog-page.html"@)),
    ]);
    assert(sections_view(sections) =~= Seq::empty());
    let mut r = String::new();
    r.append("+++\n");
    r.append(toml_table_text(&entries, &sections).as_str());
    r.append("\n+++");
    r
}

} // verus!
