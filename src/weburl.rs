use vstd::prelude::*;

verus! {

/// The parts of a parsed absolute URL that the renderer reads.
pub struct UrlParts {
    /// The URL's serialization.
    pub text: String,
    pub host: Option<String>,
    /// The host, where it is a domain name rather than an IP address.
    pub domain: Option<String>,
    /// The path, still percent-encoded.
    pub path: String,
    /// The last segment of the path, still percent-encoded; `None` where the
    /// URL cannot be a base and so has no segments.
    pub last_segment: Option<String>,
    /// The query's name/value pairs, form-decoded, in order.
    pub query: Vec<(String, String)>,
}

pub ghost struct UrlModel {
    pub text: Seq<char>,
    pub host: Option<Seq<char>>,
    pub domain: Option<Seq<char>>,
    pub path: Seq<char>,
    pub last_segment: Option<Seq<char>>,
    pub query: Seq<(Seq<char>, Seq<char>)>,
}

pub open spec fn text_of(o: Option<String>) -> Option<Seq<char>> {
    match o {
        Some(s) => Some(s@),
        None => None,
    }
}

pub open spec fn pair_view(p: (String, String)) -> (Seq<char>, Seq<char>) {
    (p.0@, p.1@)
}

impl View for UrlParts {
    type V = UrlModel;

    open spec fn view(&self) -> UrlModel {
        UrlModel {
            text: self.text@,
            host: text_of(self.host),
            domain: text_of(self.domain),
            path: self.path@,
            last_segment: text_of(self.last_segment),
            query: self.query@.map_values(|p: (String, String)| pair_view(p)),
        }
    }
}

/// What parsing `s` as an absolute URL gives, `None` where it is no URL.
pub uninterp spec fn parsed_url(s: Seq<char>) -> Option<UrlModel>;

/// Relies on `url::Url::parse` to parse `s` as an absolute URL, and on the
/// accessors `as_str`, `host_str`, `domain`, `path`, `path_segments` and
/// `query_pairs` of the parsed value, whose results it copies out.
#[verifier::external_body]
pub(crate) fn parse_url(s: &str) -> (r: Option<UrlParts>)
    ensures
        match r {
            Some(u) => parsed_url(s@) == Some(u@),
            None => parsed_url(s@) is None,
        },
{
    let u = url::Url::parse(s).ok()?;
    Some(UrlParts {
        text: u.as_str().to_string(),
        host: u.host_str().map(str::to_string),
        domain: u.domain().map(str::to_string),
        path: u.path().to_string(),
        last_segment: u.path_segments().and_then(Iterator::last).map(str::to_string),
        query: u.query_pairs().map(|(k, v)| (k.into_owned(), v.into_owned())).collect(),
    })
}

/// The value of the first query pair named `key`.
pub open spec fn first_value(q: Seq<(Seq<char>, Seq<char>)>, key: Seq<char>) -> Option<Seq<char>>
    decreases q.len(),
{
    if q.len() == 0 {
        None
    } else if q[0].0 == key {
        Some(q[0].1)
    } else {
        first_value(q.drop_first(), key)
    }
}

/// Finds the value of the first query pair named `key`.
pub fn query_value(u: &UrlParts, key: &str) -> (r: Option<String>)
    ensures
        text_of(r) == first_value(u@.query, key@),
{
    let n = u.query.len();
    let mut i: usize = 0;
    assert(u@.query.subrange(0, n as int) =~= u@.query);
    while i < n
        invariant
            n == u.query@.len(),
            n == u@.query.len(),
            i <= n,
            first_value(u@.query, key@) == first_value(u@.query.subrange(i as int, n as int), key@),
        decreases n - i,
    {
        assert(u@.query.subrange(i + 1, n as int) =~= u@.query.subrange(i as int, n as int).drop_first());
        let (k, v) = &u.query[i];
        assert(u@.query[i as int] == pair_view(u.query@[i as int]));
        if crate::text::same_text(k.as_str(), key) {
            return Some(v.clone());
        }
        i = i + 1;
    }
    None
}

} // verus!
