use vstd::prelude::*;

use crate::text::{join_path, path_join, strip_leading_slashes, without_leading_slashes};
use crate::weburl::{parse_url, parsed_url};

verus! {

/// Why a resource reference could not be mapped to local paths.
#[derive(Clone, Copy, Debug, PartialEq, Eq)]
pub enum ResourceError {
    /// The reference does not parse as an absolute URL.
    NotAUrl,
    /// The URL has no path segments to name the exported file by.
    NoPathSegments,
    /// The percent-decoded path is not valid UTF-8.
    UndecodablePath,
}

/// A file to copy from the export into the static tree.
#[derive(Clone, Debug)]
pub struct CopyJob {
    pub source: String,
    pub destination: String,
}

/// Where a resource is published, and the copy that puts it there.
#[derive(Clone, Debug)]
pub struct ResolvedResource {
    /// The percent-decoded URL path, used in rendered markup.
    pub local_path: String,
    pub copy: CopyJob,
}

pub ghost struct CopyModel {
    pub source: Seq<char>,
    pub destination: Seq<char>,
}

pub ghost struct ResolvedModel {
    pub local_path: Seq<char>,
    pub copy: CopyModel,
}

impl View for CopyJob {
    type V = CopyModel;

    open spec fn view(&self) -> CopyModel {
        CopyModel { source: self.source@, destination: self.destination@ }
    }
}

impl View for ResolvedResource {
    type V = ResolvedModel;

    open spec fn view(&self) -> ResolvedModel {
        ResolvedModel { local_path: self.local_path@, copy: self.copy@ }
    }
}

/// Percent-decoding of `s` read as UTF-8, `None` where the decoded bytes are
/// not valid UTF-8.
pub uninterp spec fn percent_decoded(s: Seq<char>) -> Option<Seq<char>>;

/// Relies on `percent_encoding::percent_decode_str` and
/// `PercentDecode::decode_utf8`: decodes every `%` followed by two hex digits,
/// then reads the bytes as UTF-8.
#[verifier::external_body]
fn percent_decode(s: &str) -> (r: Option<String>)
    ensures
        match r {
            Some(d) => percent_decoded(s@) == Some(d@),
            None => percent_decoded(s@) is None,
        },
{
    percent_encoding::percent_decode_str(s).decode_utf8().ok().map(|d| d.into_owned())
}

/// Where the resource named by `url` goes: its local path is the decoded URL
/// path; it is copied from the export file named by the encoded last path
/// segment in `source_dir` to the decoded path under `dest_root`.
pub open spec fn resolution(dest_root: Seq<char>, source_dir: Seq<char>, url: Seq<char>) -> Result<
    ResolvedModel,
    ResourceError,
> {
    match parsed_url(url) {
        None => Err(ResourceError::NotAUrl),
        Some(u) => match u.last_segment {
            None => Err(ResourceError::NoPathSegments),
            Some(segment) => match percent_decoded(u.path) {
                None => Err(ResourceError::UndecodablePath),
                Some(path) => Ok(
                    ResolvedModel {
                        local_path: path,
                        copy: CopyModel {
                            source: path_join(source_dir, segment),
                            destination: path_join(dest_root, without_leading_slashes(path)),
                        },
                    },
                ),
            },
        },
    }
}

/// Whether `url` names a resource that can be resolved: it parses as an
/// absolute URL with path segments, and its path decodes to UTF-8.
pub open spec fn resolvable(url: Seq<char>) -> bool {
    &&& parsed_url(url) is Some
    &&& parsed_url(url)->Some_0.last_segment is Some
    &&& percent_decoded(parsed_url(url)->Some_0.path) is Some
}

/// Maps the resource at `resource` to its local path and the copy that
/// publishes it under `dest_prefix`.
pub fn copy_static_resource(dest_prefix: &str, source_dir: &str, resource: &str) -> (r: Result<
    ResolvedResource,
    ResourceError,
>)
    ensures
        match r {
            Ok(res) => resolution(dest_prefix@, source_dir@, resource@) == Ok::<ResolvedModel, ResourceError>(res@),
            Err(e) => resolution(dest_prefix@, source_dir@, resource@) == Err::<ResolvedModel, ResourceError>(e),
        },
{
    let u = match parse_url(resource) {
        Some(u) => u,
        None => return Err(ResourceError::NotAUrl),
    };
    let segment = match &u.last_segment {
        Some(s) => s,
        None => return Err(ResourceError::NoPathSegments),
    };
    let path = match percent_decode(u.path.as_str()) {
        Some(p) => p,
        None => return Err(ResourceError::UndecodablePath),
    };
    let source = join_path(source_dir, segment.as_str());
    let destination = join_path(dest_prefix, strip_leading_slashes(path.as_str()));
    Ok(ResolvedResource { local_path: path, copy: CopyJob { source, destination } })
}

proof fn lemma_stripped_is_relative(s: Seq<char>)
    ensures
        !(without_leading_slashes(s).len() > 0 && without_leading_slashes(s)[0] == '/'),
    decreases s.len(),
{
    if s.len() > 0 && s[0] == '/' {
        lemma_stripped_is_relative(s.drop_first());
    }
}

/// A resolved resource is always copied to a place under the destination
/// root: the root is a prefix of the destination path.
pub proof fn lemma_destination_under_root(dest_root: Seq<char>, source_dir: Seq<char>, url: Seq<char>)
    requires
        resolution(dest_root, source_dir, url) is Ok,
    ensures
        dest_root.is_prefix_of(resolution(dest_root, source_dir, url)->Ok_0.copy.destination),
{
    let u = parsed_url(url)->Some_0;
    let path = percent_decoded(u.path)->Some_0;
    lemma_stripped_is_relative(path);
    let rel = without_leading_slashes(path);
    let d = path_join(dest_root, rel);
    assert(d.subrange(0, dest_root.len() as int) =~= dest_root);
}

/// Resolving a resource is repeatable: two resolutions of the same reference
/// against the same roots give the same local path and the same copy (same
/// source, same destination).
pub proof fn lemma_resolution_repeatable(
    dest_root: Seq<char>,
    source_dir: Seq<char>,
    url: Seq<char>,
    first: ResolvedResource,
    second: ResolvedResource,
)
    requires
        resolution(dest_root, source_dir, url) == Ok::<ResolvedModel, ResourceError>(first@),
        resolution(dest_root, source_dir, url) == Ok::<ResolvedModel, ResourceError>(second@),
    ensures
        first@ == second@,
        first.local_path@ == second.local_path@,
        first.copy.destination@ == second.copy.destination@,
{
}

} // verus!
