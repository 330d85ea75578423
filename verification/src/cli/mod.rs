//! The decisions of the command line client: output formats, which request each
//! command sends, and the lookup of flavors and users by name.
pub mod flavor;
pub mod flavor_group;
pub mod flavor_price;
pub mod flavor_quota;
pub mod hello;
pub mod project;
pub mod project_budget;
pub mod server_cost;
pub mod server_state;
pub mod user;
pub mod user_budget;

use crate::common::{pairs_view, parsed_with_params, push_pair, url_parse, ApiError, Method, NoBody, Request, NO_CONTENT, OK};
use crate::text::text_eq;
use vstd::prelude::*;

verus! {

/// The table styles the client can print in.
#[derive(Debug, Clone, Copy, PartialEq, Eq, Structural)]
pub enum TableFormat {
    Empty,
    Blank,
    Ascii,
    Psql,
    Markdown,
    Modern,
    Sharp,
    Rounded,
    ModernRounded,
    Extended,
    Dots,
    ReStructuredText,
    AsciiRounded,
}

/// The output formats: JSON, or a table in one of the styles.
#[derive(Debug, Clone, Copy, PartialEq, Eq, Structural)]
pub enum Format {
    Json,
    Table(TableFormat),
}

/// The name a format goes by on the command line.
pub open spec fn format_name(f: Format) -> Seq<char> {
    match f {
        Format::Json => "json"@,
        Format::Table(t) => match t {
            TableFormat::Empty => "empty"@,
            TableFormat::Blank => "blank"@,
            TableFormat::Ascii => "ascii"@,
            TableFormat::Psql => "psql"@,
            TableFormat::Markdown => "markdown"@,
            TableFormat::Modern => "modern"@,
            TableFormat::Sharp => "sharp"@,
            TableFormat::Rounded => "rounded"@,
            TableFormat::ModernRounded => "modern-rounded"@,
            TableFormat::Extended => "extended"@,
            TableFormat::Dots => "dots"@,
            TableFormat::ReStructuredText => "re-structured-text"@,
            TableFormat::AsciiRounded => "ascii-rounded"@,
        },
    }
}

/// Every format, in the order the client offers them.
pub open spec fn all_formats() -> Seq<Format> {
    seq![
        Format::Json,
        Format::Table(TableFormat::Empty),
        Format::Table(TableFormat::Blank),
        Format::Table(TableFormat::Ascii),
        Format::Table(TableFormat::Psql),
        Format::Table(TableFormat::Markdown),
        Format::Table(TableFormat::Modern),
        Format::Table(TableFormat::Sharp),
        Format::Table(TableFormat::Rounded),
        Format::Table(TableFormat::ModernRounded),
        Format::Table(TableFormat::Extended),
        Format::Table(TableFormat::Dots),
        Format::Table(TableFormat::ReStructuredText),
        Format::Table(TableFormat::AsciiRounded),
    ]
}

/// The format that goes by `name`, if any does.
pub open spec fn format_named(name: Seq<char>) -> Option<Format> {
    if exists|i: int| 0 <= i < all_formats().len() && format_name(#[trigger] all_formats()[i]) == name {
        Some(
            all_formats()[choose|i: int|
                0 <= i < all_formats().len() && format_name(#[trigger] all_formats()[i]) == name],
        )
    } else {
        None
    }
}

/// The names of distinct formats differ.
pub proof fn lemma_format_names_distinct(f: Format, g: Format)
    ensures
        format_name(f) == format_name(g) ==> f == g,
{
    reveal_strlit("json");
    reveal_strlit("empty");
    reveal_strlit("blank");
    reveal_strlit("ascii");
    reveal_strlit("psql");
    reveal_strlit("markdown");
    reveal_strlit("modern");
    reveal_strlit("sharp");
    reveal_strlit("rounded");
    reveal_strlit("modern-rounded");
    reveal_strlit("extended");
    reveal_strlit("dots");
    reveal_strlit("re-structured-text");
    reveal_strlit("ascii-rounded");
    if format_name(f) == format_name(g) {
        assert(format_name(f).len() == format_name(g).len());
        assert(format_name(f)[0] == format_name(g)[0]);
        assert(format_name(f)[1] == format_name(g)[1]);
        if format_name(f).len() > 5 {
            assert(format_name(f)[5] == format_name(g)[5]);
        }
        if format_name(f).len() > 6 {
            assert(format_name(f)[6] == format_name(g)[6]);
        }
    }
}

/// Every format is offered, and parsing its name gives it back.
pub proof fn lemma_format_name_round_trip(f: Format)
    ensures
        all_formats().contains(f),
        format_named(format_name(f)) == Some(f),
{
    let i: int = match f {
        Format::Json => 0,
        Format::Table(t) => match t {
            TableFormat::Empty => 1,
            TableFormat::Blank => 2,
            TableFormat::Ascii => 3,
            TableFormat::Psql => 4,
            TableFormat::Markdown => 5,
            TableFormat::Modern => 6,
            TableFormat::Sharp => 7,
            TableFormat::Rounded => 8,
            TableFormat::ModernRounded => 9,
            TableFormat::Extended => 10,
            TableFormat::Dots => 11,
            TableFormat::ReStructuredText => 12,
            TableFormat::AsciiRounded => 13,
        },
    };
    assert(all_formats()[i] == f);
    let name = format_name(f);
    assert(exists|j: int| 0 <= j < all_formats().len() && format_name(#[trigger] all_formats()[j]) == name);
    let j = choose|j: int| 0 <= j < all_formats().len() && format_name(#[trigger] all_formats()[j]) == name;
    lemma_format_names_distinct(all_formats()[j], f);
}

impl Format {
    /// Every format, in the order the client offers them.
    pub fn value_variants() -> (r: Vec<Format>)
        ensures
            r@ == all_formats(),
    {
        let r = vec![
            Format::Json,
            Format::Table(TableFormat::Empty),
            Format::Table(TableFormat::Blank),
            Format::Table(TableFormat::Ascii),
            Format::Table(TableFormat::Psql),
            Format::Table(TableFormat::Markdown),
            Format::Table(TableFormat::Modern),
            Format::Table(TableFormat::Sharp),
            Format::Table(TableFormat::Rounded),
            Format::Table(TableFormat::ModernRounded),
            Format::Table(TableFormat::Extended),
            Format::Table(TableFormat::Dots),
            Format::Table(TableFormat::ReStructuredText),
            Format::Table(TableFormat::AsciiRounded),
        ];
        assert(r@ =~= all_formats());
        r
    }

    /// The name of the format on the command line; every format has one.
    pub fn to_possible_value(&self) -> (r: Option<&'static str>)
        ensures
            r matches Some(n) && n@ == format_name(*self),
    {
        let name = match self {
            Format::Json => "json",
            Format::Table(t) => match t {
                TableFormat::Empty => "empty",
                TableFormat::Blank => "blank",
                TableFormat::Ascii => "ascii",
                TableFormat::Psql => "psql",
                TableFormat::Markdown => "markdown",
                TableFormat::Modern => "modern",
                TableFormat::Sharp => "sharp",
                TableFormat::Rounded => "rounded",
                TableFormat::ModernRounded => "modern-rounded",
                TableFormat::Extended => "extended",
                TableFormat::Dots => "dots",
                TableFormat::ReStructuredText => "re-structured-text",
                TableFormat::AsciiRounded => "ascii-rounded",
            },
        };
        Some(name)
    }

    /// The format named `value`, matched exactly, whatever `_ignore_case` says, or
    /// `Invalid format: <value>`.
    pub fn from_str(value: &str, _ignore_case: bool) -> (r: Result<Format, String>)
        ensures
            r is Ok <==> format_named(value@) is Some,
            r matches Ok(f) ==> format_named(value@) == Some(f),
            r matches Err(m) ==> m@ == "Invalid format: "@ + value@,
    {
        let formats = Format::value_variants();
        let mut i: usize = 0;
        while i < formats.len()
            invariant
                formats@ == all_formats(),
                i <= formats.len(),
                forall|j: int| 0 <= j < i ==> format_name(#[trigger] all_formats()[j]) != value@,
            decreases formats.len() - i,
        {
            let f = formats[i];
            let name = match f.to_possible_value() {
                Some(n) => n,
                None => "",
            };
            if text_eq(name, value) {
                proof {
                    lemma_format_name_round_trip(f);
                    assert(format_name(all_formats()[i as int]) == value@);
                }
                return Ok(f);
            }
            i = i + 1;
        }
        let mut m = "Invalid format: ".to_owned();
        m.append(value);
        Err(m)
    }
}

/// A `GET` of `url`, answered with `200 OK`.
pub open spec fn is_get(r: Request<NoBody>, url: Seq<char>) -> bool {
    &&& r.method == Method::Get
    &&& r.url@ == url
    &&& r.data is None
    &&& r.expected_status == OK
}

/// A `DELETE` of `url`, answered with `204 No Content`.
pub open spec fn is_delete(r: Request<NoBody>, url: Seq<char>) -> bool {
    &&& r.method == Method::Delete
    &&& r.url@ == url
    &&& r.data is None
    &&& r.expected_status == NO_CONTENT
}

/// Where the lookup of an id by name or id stands: done with an id, done without one
/// (with the message to show), or waiting for an answer to the request it names.
#[derive(Debug, PartialEq)]
pub enum Lookup {
    /// The id.
    Found(u32),
    /// Nothing goes by that name; the message says so.
    Missing(String),
    /// Send this request for one's own user and hand back the answer.
    FetchMe(Request<NoBody>),
    /// Send this listing and hand back what it lists.
    FetchList(Request<NoBody>),
    /// The listing could not be planned; the lookup ends with this error.
    Failed(ApiError),
}

/// The step of a lookup that sends the listing with `pairs` on `url`: that `GET`, or the
/// error when the URL does not parse.
pub open spec fn lookup_planned(r: Lookup, url: Seq<char>, pairs: Seq<(Seq<char>, Seq<char>)>) -> bool {
    &&& (r is FetchList <==> url_parse(url) is Some)
    &&& (r matches Lookup::FetchList(q) ==> is_get(q, parsed_with_params(url, pairs)))
    &&& (r matches Lookup::Failed(e) ==> (e matches ApiError::UnexpectedError(m)
        && m@ == "Could not parse URL GET parameters."@))
    &&& (r is FetchList || r is Failed)
}

/// The pair that asks a listing for everything: `all=1`.
pub open spec fn all_pair() -> Seq<(Seq<char>, Seq<char>)> {
    seq![("all"@, "1"@)]
}

/// Appends `all=1`.
pub fn push_all(pairs: &mut Vec<(String, String)>)
    ensures
        pairs_view(final(pairs)@) == pairs_view(old(pairs)@) + all_pair(),
{
    push_pair(pairs, "all", "1".to_owned());
    assert(pairs_view(pairs@) =~= pairs_view(old(pairs)@) + all_pair());
}

/// Whether `name` is one of two texts, as an item's OpenStack id and name are tested.
pub fn text_matches(openstack_id: &str, name_text: &str, name: &str) -> (r: bool)
    ensures
        r == (openstack_id@ == name@ || name_text@ == name@),
{
    text_eq(openstack_id, name) || text_eq(name_text, name)
}

} // verus!
