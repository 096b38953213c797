use vstd::prelude::*;

use crate::cohost::Timestamp;

verus! {

/// A value of a front-matter table.
#[derive(Debug)]
pub enum TomlItem {
    Text(String),
    Integer(i64),
    Flag(bool),
    TextList(Vec<String>),
}

pub ghost enum TomlItemModel {
    Text(Seq<char>),
    Integer(int),
    Flag(bool),
    TextList(Seq<Seq<char>>),
}

pub open spec fn texts(v: Vec<String>) -> Seq<Seq<char>> {
    v@.map_values(|s: String| s@)
}

impl View for TomlItem {
    type V = TomlItemModel;

    open spec fn view(&self) -> TomlItemModel {
        match self {
            TomlItem::Text(s) => TomlItemModel::Text(s@),
            TomlItem::Integer(n) => TomlItemModel::Integer(*n as int),
            TomlItem::Flag(b) => TomlItemModel::Flag(*b),
            TomlItem::TextList(l) => TomlItemModel::TextList(texts(*l)),
        }
    }
}

/// Keyed values, in the order they were given.
pub open spec fn entries_view(v: Vec<(String, TomlItem)>) -> Seq<(Seq<char>, TomlItemModel)> {
    v@.map_values(|p: (String, TomlItem)| (p.0@, p.1@))
}

/// Named tables of keyed values.
pub open spec fn sections_view(v: Vec<(String, Vec<(String, TomlItem)>)>) -> Seq<
    (Seq<char>, Seq<(Seq<char>, TomlItemModel)>),
> {
    v@.map_values(|p: (String, Vec<(String, TomlItem)>)| (p.0@, entries_view(p.1)))
}

/// The TOML document of a table holding `entries` and, as subtables,
/// `sections`.
pub uninterp spec fn toml_document(
    entries: Seq<(Seq<char>, TomlItemModel)>,
    sections: Seq<(Seq<char>, Seq<(Seq<char>, TomlItemModel)>)>,
) -> Seq<char>;

/// Relies on the `Display` of `toml::Table`, toml's document serializer: the
/// values are put into a table (each section as a subtable) and printed.
#[verifier::external_body]
pub(crate) fn toml_table_text(
    entries: &Vec<(String, TomlItem)>,
    sections: &Vec<(String, Vec<(String, TomlItem)>)>,
) -> (r: String)
    ensures
        r@ == toml_document(entries_view(*entries), sections_view(*sections)),
{
    let value = |i: &TomlItem| match i {
        TomlItem::Text(s) => toml::Value::String(s.clone()),
        TomlItem::Integer(n) => toml::Value::Integer(*n),
        TomlItem::Flag(b) => toml::Value::Boolean(*b),
        TomlItem::TextList(l) => toml::Value::from(l.clone()),
    };
    let table = |es: &Vec<(String, TomlItem)>| -> toml::Table { es.iter().map(|(k, i)| (k.clone(), value(i))).collect() };
    let mut root = table(entries);
    for (name, es) in sections {
        root.insert(name.clone(), toml::Value::Table(table(es)));
    }
    root.to_string()
}

/// A text entry.
pub fn text_entry(key: &str, value: &str) -> (r: (String, TomlItem))
    ensures
        r.0@ == key@,
        r.1@ == TomlItemModel::Text(value@),
{
    (key.to_owned(), TomlItem::Text(value.to_owned()))
}

/// A copy of a list of texts.
pub fn copy_texts(v: &Vec<String>) -> (r: Vec<String>)
    ensures
        texts(r) == texts(*v),
{
    let mut r: Vec<String> = Vec::new();
    let n = v.len();
    let mut i: usize = 0;
    while i < n
        invariant
            n == v@.len(),
            i <= n,
            r@.len() == i,
            forall|j: int| 0 <= j < i ==> r@[j]@ == v@[j]@,
        decreases n - i,
    {
        r.push(v[i].clone());
        i = i + 1;
    }
    assert(texts(r) =~= texts(*v));
    r
}

/// The RFC 3339 text of the local date and time `local_seconds` (counted
/// from 1970-01-01T00:00:00 on the local clock) plus `nanosecond`, at UTC
/// offset `offset_seconds`.
pub uninterp spec fn rfc3339(local_seconds: int, nanosecond: int, offset_seconds: int) -> Seq<char>;

/// The local time of `t`, in seconds from 1970-01-01T00:00:00 on its clock.
pub open spec fn local_seconds(t: Timestamp) -> int {
    t.unix_seconds + t.offset_seconds
}

/// Whether local time `local` with `nanosecond` at offset `offset` has an
/// RFC 3339 form: a nanosecond within the second, an offset of whole minutes
/// under a day, and a local date within the years 0 to 9999.
pub open spec fn formattable_parts(local: int, nanosecond: int, offset: int) -> bool {
    &&& nanosecond < 1_000_000_000
    &&& offset % 60 == 0
    &&& -86340 <= offset <= 86340
    &&& -62167219200 <= local <= 253402300799
}

/// Whether `t` has an RFC 3339 form.
pub open spec fn formattable(t: Timestamp) -> bool {
    formattable_parts(local_seconds(t), t.nanosecond as int, t.offset_seconds as int)
}

/// Relies on `time::OffsetDateTime::format` with the well-known `Rfc3339`
/// format, after building the value from its local parts with
/// `UtcOffset::from_whole_seconds` (up to 25:59:59),
/// `OffsetDateTime::from_unix_timestamp` (years -9999 to 9999),
/// `replace_nanosecond` (below one second) and `replace_offset` (which keeps
/// the date and time and never fails). The formatter refuses only a year
/// outside 0 to 9999, an offset of 24 hours or more, or an offset with
/// leftover seconds. Nothing panics.
#[verifier::external_body]
fn format_rfc3339(local_seconds: i64, nanosecond: u32, offset_seconds: i32) -> (r: Option<String>)
    ensures
        r matches Some(s) ==> s@ == rfc3339(local_seconds as int, nanosecond as int, offset_seconds as int),
        formattable_parts(local_seconds as int, nanosecond as int, offset_seconds as int) ==> r is Some,
{
    let offset = time::UtcOffset::from_whole_seconds(offset_seconds).ok()?;
    let at = time::OffsetDateTime::from_unix_timestamp(local_seconds).ok()?;
    let at = at.replace_nanosecond(nanosecond).ok()?.replace_offset(offset);
    at.format(&time::format_description::well_known::Rfc3339).ok()
}

/// The RFC 3339 text of `t`, where it has one.
pub fn timestamp_text(t: &Timestamp) -> (r: Option<String>)
    ensures
        r matches Some(s) ==> s@ == rfc3339(local_seconds(*t), t.nanosecond as int, t.offset_seconds as int),
        formattable(*t) ==> r is Some,
{
    match t.unix_seconds.checked_add(t.offset_seconds as i64) {
        Some(local) => format_rfc3339(local, t.nanosecond, t.offset_seconds),
        None => None,
    }
}

/// A document: front matter between `+++` lines, a blank line, the body.
pub open spec fn document(front_matter: Seq<char>, body: Seq<char>) -> Seq<char> {
    "+++\n"@ + front_matter + "\n+++\n\n"@ + body
}

} // verus!
