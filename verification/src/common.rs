//! Requests as plain values, query strings, and response status handling.
use crate::datetime::DateTime;
pub use crate::error::ApiError;

use crate::text::{dec, u32_to_string};
use vstd::prelude::*;
use vstd::utf8::encode_utf8;

verus! {

/// An upper-case hexadecimal digit for a value below sixteen.
pub open spec fn hex_upper(v: nat) -> char {
    if v < 10 {
        ((v + 48) as u8) as char
    } else {
        ((v + 55) as u8) as char
    }
}

/// The bytes that form encoding leaves as they are: `*-._`, digits and ASCII letters.
pub open spec fn form_byte_unchanged(b: u8) -> bool {
    ||| b == 42
    ||| b == 45
    ||| b == 46
    ||| 48 <= b <= 57
    ||| 65 <= b <= 90
    ||| b == 95
    ||| 97 <= b <= 122
}

/// How form encoding writes one byte: as it is, a space as `+`, else `%XX`.
pub open spec fn form_encode_byte(b: u8) -> Seq<char> {
    if form_byte_unchanged(b) {
        seq![b as char]
    } else if b == 32 {
        seq!['+']
    } else {
        seq!['%', hex_upper((b / 16) as nat), hex_upper((b % 16) as nat)]
    }
}

/// Form encoding of a byte string.
pub open spec fn form_encode_bytes(bs: Seq<u8>) -> Seq<char>
    decreases bs.len(),
{
    if bs.len() == 0 {
        Seq::empty()
    } else {
        form_encode_bytes(bs.drop_last()) + form_encode_byte(bs.last())
    }
}

/// Form encoding (`application/x-www-form-urlencoded`) of a text, byte by byte of its UTF-8.
pub open spec fn form_encode(s: Seq<char>) -> Seq<char> {
    form_encode_bytes(encode_utf8(s))
}

/// One encoded `key=value` pair.
pub open spec fn form_pair(p: (Seq<char>, Seq<char>)) -> Seq<char> {
    form_encode(p.0) + seq!['='] + form_encode(p.1)
}

/// Encoded pairs joined by `&`.
pub open spec fn form_pairs(ps: Seq<(Seq<char>, Seq<char>)>) -> Seq<char>
    decreases ps.len(),
{
    if ps.len() == 0 {
        Seq::empty()
    } else if ps.len() == 1 {
        form_pair(ps[0])
    } else {
        form_pairs(ps.drop_last()) + seq!['&'] + form_pair(ps.last())
    }
}

/// The texts of a list of key/value pairs.
pub open spec fn pairs_view(ps: Seq<(String, String)>) -> Seq<(Seq<char>, Seq<char>)> {
    ps.map_values(|p: (String, String)| (p.0@, p.1@))
}

/// Encoded pairs are empty exactly when there are no pairs.
pub proof fn lemma_form_pairs_empty(ps: Seq<(Seq<char>, Seq<char>)>)
    ensures
        (form_pairs(ps).len() == 0) <==> (ps.len() == 0),
    decreases ps.len(),
{
    if ps.len() > 1 {
        lemma_form_pairs_empty(ps.drop_last());
    }
}

/// A character that form encoding leaves as it is: an ASCII letter or digit, or `*-._`.
pub open spec fn form_char_plain(c: char) -> bool {
    ||| c == '*'
    ||| c == '-'
    ||| c == '.'
    ||| '0' <= c <= '9'
    ||| 'A' <= c <= 'Z'
    ||| c == '_'
    ||| 'a' <= c <= 'z'
}

proof fn lemma_form_encode_bytes_plain(bs: Seq<u8>, s: Seq<char>)
    requires
        bs.len() == s.len(),
        forall|i: int| 0 <= i < s.len() ==> bs[i] == #[trigger] s[i] as u8 && form_char_plain(s[i]),
    ensures
        form_encode_bytes(bs) == s,
    decreases bs.len(),
{
    if bs.len() > 0 {
        let n = s.len() - 1;
        assert(bs[n] == s[n] as u8 && form_char_plain(s[n]));
        lemma_form_encode_bytes_plain(bs.drop_last(), s.drop_last());
        assert(form_byte_unchanged(bs.last()));
        assert(s =~= s.drop_last() + seq![s.last()]);
    }
}

/// Form encoding leaves a text of ASCII letters, digits and `*-._` as it is: ids and
/// such names stand in a query as they are written.
pub proof fn lemma_form_encode_plain(s: Seq<char>)
    requires
        forall|i: int| 0 <= i < s.len() ==> form_char_plain(#[trigger] s[i]),
    ensures
        form_encode(s) == s,
{
    assert(vstd::utf8::is_ascii_chars(s));
    vstd::utf8::is_ascii_chars_encode_utf8(s);
    lemma_form_encode_bytes_plain(encode_utf8(s), s);
}

/// `base`, followed by `?` and the encoded pairs when there are any.
pub open spec fn with_query(base: Seq<char>, ps: Seq<(Seq<char>, Seq<char>)>) -> Seq<char> {
    if ps.len() == 0 {
        base
    } else {
        base + seq!['?'] + form_pairs(ps)
    }
}

/// A URL with a query begins with the URL it was built on, and is that URL alone exactly
/// when there are no pairs: a listing goes to the bare collection URL exactly when no
/// filter is set.
pub proof fn lemma_with_query_base(base: Seq<char>, ps: Seq<(Seq<char>, Seq<char>)>)
    ensures
        with_query(base, ps).len() >= base.len(),
        with_query(base, ps).subrange(0, base.len() as int) == base,
        (with_query(base, ps) == base) <==> (ps.len() == 0),
{
    if ps.len() > 0 {
        let q = with_query(base, ps);
        assert(q.len() > base.len());
        assert(q.subrange(0, base.len() as int) =~= base);
    } else {
        assert(base.subrange(0, base.len() as int) =~= base);
    }
}

/// Calls `serde_urlencoded::to_string` on a list of key/value text pairs.
/// Its source encodes each pair as `key=value`, both form-encoded byte by byte,
/// joins the pairs with `&`, and never fails on text pairs.
#[verifier::external_body]
fn serde_urlencode(pairs: &Vec<(String, String)>) -> (r: Option<String>)
    ensures
        r is Some,
        r matches Some(s) ==> s@ == form_pairs(pairs_view(pairs@)),
{
    serde_urlencoded::to_string(pairs).ok()
}

/// `base` with the pairs as query string, the way the request builders assemble a URL:
/// the base alone when the encoded parameters are empty, else `base?params`.
pub fn url_with_query(base: &str, pairs: &Vec<(String, String)>) -> (r: String)
    ensures
        r@ == with_query(base@, pairs_view(pairs@)),
{
    proof {
        lemma_form_pairs_empty(pairs_view(pairs@));
    }
    match serde_urlencode(pairs) {
        Some(params) => {
            if params.as_str().is_empty() {
                base.to_owned()
            } else {
                let mut url = base.to_owned();
                proof { reveal_strlit("?"); }
                url.append("?");
                url.append(params.as_str());
                url
            }
        },
        None => base.to_owned(),
    }
}

/// The serialization of what the `url` crate parses `s` into, or `None` when it rejects `s`.
pub uninterp spec fn url_parse(s: Seq<char>) -> Option<Seq<char>>;

/// The position of the first `c` in `s`, or the length of `s` when `c` does not occur.
pub open spec fn first_at(s: Seq<char>, c: char) -> int
    decreases s.len(),
{
    if s.len() == 0 {
        0
    } else if s[0] == c {
        0
    } else {
        1 + first_at(s.drop_first(), c)
    }
}

/// A serialized URL `p` with the encoded pairs `q` appended to its query, as
/// `url::Url::query_pairs_mut` does it. The fragment, from the first `#`, is taken off
/// and put back at the end. Before it, a URL without a query (no `?`) gets `?` and the
/// pairs; a URL with an empty query gets the pairs; one with a query gets `&` and the
/// pairs, unless there are none.
pub open spec fn with_params_text(p: Seq<char>, q: Seq<char>) -> Seq<char> {
    let f = first_at(p, '#');
    let head = p.subrange(0, f);
    let fragment = p.subrange(f, p.len() as int);
    let qs = first_at(head, '?');
    (if qs >= head.len() {
        head + seq!['?'] + q
    } else if q.len() == 0 || qs + 1 == head.len() {
        head + q
    } else {
        head + seq!['&'] + q
    }) + fragment
}

/// Calls `reqwest::Url::parse_with_params`, which parses `base` and then appends the
/// pairs, form-encoded and joined by `&`, to the query with
/// `url::Url::query_pairs_mut`: the result is `with_params_text` of the parsed base and
/// the encoded pairs.
#[verifier::external_body]
fn url_parse_with_params(base: &str, pairs: &Vec<(String, String)>) -> (r: Option<String>)
    ensures
        r is Some <==> url_parse(base@) is Some,
        r matches Some(u) ==> u@ == with_params_text(
            url_parse(base@)->0,
            form_pairs(pairs_view(pairs@)),
        ),
{
    reqwest::Url::parse_with_params(base, pairs).ok().map(String::from)
}

/// The URL that `reqwest::Url::parse_with_params` builds.
pub open spec fn parsed_with_params(base: Seq<char>, ps: Seq<(Seq<char>, Seq<char>)>) -> Seq<char> {
    with_params_text(url_parse(base)->0, form_pairs(ps))
}

proof fn lemma_first_at_absent(s: Seq<char>, c: char)
    requires
        !s.contains(c),
    ensures
        first_at(s, c) == s.len(),
    decreases s.len(),
{
    if s.len() > 0 {
        assert(s[0] != c);
        assert forall|i: int| 0 <= i < s.drop_first().len() implies s.drop_first()[i] != c by {
            assert(s.drop_first()[i] == s[i + 1]);
        }
        lemma_first_at_absent(s.drop_first(), c);
    }
}

/// A parsed URL without query or fragment gets `?` and the encoded pairs, even when
/// there are none.
pub proof fn lemma_params_plain_base(p: Seq<char>, q: Seq<char>)
    requires
        !p.contains('?'),
        !p.contains('#'),
    ensures
        with_params_text(p, q) == p + seq!['?'] + q,
{
    lemma_first_at_absent(p, '#');
    assert(p.subrange(0, p.len() as int) =~= p);
    assert(p.subrange(p.len() as int, p.len() as int) =~= Seq::<char>::empty());
    lemma_first_at_absent(p, '?');
    assert((p + seq!['?'] + q) + Seq::<char>::empty() =~= p + seq!['?'] + q);
}

/// Parses `base` and appends the pairs as query; a base the parser rejects gives
/// `UnexpectedError("Could not parse URL GET parameters.")`.
pub fn url_with_params(base: &str, pairs: &Vec<(String, String)>) -> (r: Result<String, ApiError>)
    ensures
        r is Ok <==> url_parse(base@) is Some,
        r matches Err(e) ==> (e matches ApiError::UnexpectedError(m)
            && m@ == "Could not parse URL GET parameters."@),
        r matches Ok(u) ==> u@ == parsed_with_params(base@, pairs_view(pairs@)),
{
    match url_parse_with_params(base, pairs) {
        Some(u) => Ok(u),
        None => Err(ApiError::UnexpectedError("Could not parse URL GET parameters.".to_owned())),
    }
}


/// The HTTP methods the API uses.
#[derive(Debug, Clone, Copy, PartialEq, Eq, Structural)]
pub enum Method {
    Get,
    Post,
    Patch,
    Delete,
}

/// `200 OK`.
pub const OK: u16 = 200;

/// `201 Created`.
pub const CREATED: u16 = 201;

/// `204 No Content`.
pub const NO_CONTENT: u16 = 204;

/// The body of a request that sends none.
#[derive(Debug, Clone, Copy, PartialEq, Eq, Structural)]
pub struct NoBody;

/// A request to send: method, full URL, optional JSON body and the status that
/// a successful answer carries.
#[derive(Debug, Clone, PartialEq)]
pub struct Request<B> {
    pub method: Method,
    pub url: String,
    pub data: Option<B>,
    pub expected_status: u16,
}

/// A request without body.
pub fn bare(method: Method, url: String, expected_status: u16) -> (r: Request<NoBody>)
    ensures
        r.method == method,
        r.url == url,
        r.data is None,
        r.expected_status == expected_status,
{
    Request { method, url, data: None, expected_status }
}

/// A request with a body.
pub fn with_data<B>(method: Method, url: String, data: B, expected_status: u16) -> (r: Request<B>)
    ensures
        r.method == method,
        r.url == url,
        r.data == Some(data),
        r.expected_status == expected_status,
{
    Request { method, url, data: Some(data), expected_status }
}

/// The canonical reason phrase that the `http` crate knows for a status code.
pub uninterp spec fn canonical_reason(code: u16) -> Option<Seq<char>>;

/// Calls `http::StatusCode::canonical_reason` on the status with this code; codes that
/// `StatusCode::from_u16` rejects (outside 100 to 999) have none.
#[verifier::external_body]
fn status_reason(code: u16) -> (r: Option<&'static str>)
    ensures
        r matches Some(t) ==> canonical_reason(code) == Some(t@),
        r is None ==> canonical_reason(code) is None,
        (code < 100 || code > 999) ==> r is None,
{
    match reqwest::StatusCode::from_u16(code) {
        Ok(status) => status.canonical_reason(),
        Err(_) => None,
    }
}

/// How the `http` crate displays a status: code, space, reason phrase.
pub open spec fn status_text(code: u16) -> Seq<char> {
    dec(code as nat) + seq![' '] + match canonical_reason(code) {
        Some(r) => r,
        None => "<unknown status code>"@,
    }
}

/// A status written as the `http` crate displays it, from its code and its reason
/// phrase, if the crate knows one.
pub fn status_display(code: u16, reason: Option<&str>) -> (r: String)
    ensures
        r@ == dec(code as nat) + seq![' '] + match reason {
            Some(t) => t@,
            None => "<unknown status code>"@,
        },
{
    let mut s = u32_to_string(code as u32);
    proof { reveal_strlit(" "); }
    s.append(" ");
    match reason {
        Some(reason) => s.append(reason),
        None => s.append("<unknown status code>"),
    }
    s
}

/// Renders a status code the way `http::StatusCode` displays it.
pub fn status_to_string(code: u16) -> (r: String)
    ensures
        r@ == status_text(code),
{
    status_display(code, status_reason(code))
}

/// The `detail` of an error answer, when its text is a JSON object with a text `detail`.
pub uninterp spec fn error_detail(text: Seq<char>) -> Option<Seq<char>>;

/// Calls `serde_json::from_str` to read an `avina_wire::error::ErrorResponse` and takes
/// its `detail`; `None` when the text does not parse as one.
#[verifier::external_body]
fn parse_error_detail(text: &str) -> (r: Option<String>)
    ensures
        r matches Some(d) ==> error_detail(text@) == Some(d@),
        r is None ==> error_detail(text@) is None,
{
    serde_json::from_str::<avina_wire::error::ErrorResponse>(text).ok().map(|e| e.detail)
}

/// Whether an answer with `status` is the one a request expecting `expected` waits for.
pub fn status_accepted(expected: u16, status: u16) -> (r: bool)
    ensures
        r == (expected == status),
{
    expected == status
}

/// The error for an answer with an unexpected status, from the status as displayed and
/// the `detail` the answer carries: that detail, or the message that the status came
/// without one.
pub fn error_from_detail(status: &str, detail: Option<String>) -> (r: ApiError)
    ensures
        detail matches Some(d) ==> (r matches ApiError::ResponseError(m) && m@ == d@),
        detail is None ==> (r matches ApiError::UnexpectedError(m) && m@
            == "Unexpected status code "@ + status@ + " without error message."@),
{
    match detail {
        Some(detail) => ApiError::ResponseError(detail),
        None => {
            let mut m = "Unexpected status code ".to_owned();
            m.append(status);
            m.append(" without error message.");
            ApiError::UnexpectedError(m)
        },
    }
}

/// The error for an answer with an unexpected status: the server's `detail` when the
/// text carries one, else the message that the status came without one.
pub fn error_from_response(status: u16, text: &str) -> (r: ApiError)
    ensures
        error_detail(text@) matches Some(d) ==> (r matches ApiError::ResponseError(m) && m@ == d),
        error_detail(text@) is None ==> (r matches ApiError::UnexpectedError(m) && m@
            == "Unexpected status code "@ + status_text(status) + " without error message."@),
{
    let shown = status_to_string(status);
    error_from_detail(shown.as_str(), parse_error_detail(text))
}

/// The error when a request could not be sent or answered, from its innermost cause.
pub fn request_unsent(cause: &str) -> (r: ApiError)
    ensures
        r matches ApiError::ResponseError(m) && m@ == "Could not complete request: "@ + cause@,
{
    let mut m = "Could not complete request: ".to_owned();
    m.append(cause);
    ApiError::ResponseError(m)
}

/// A creation: `POST` of the data to `<base>/`, answered with `201 Created`.
pub fn create_item<B>(base: &str, data: B) -> (r: Request<B>)
    ensures
        r.method == Method::Post,
        r.url@ == base@ + seq!['/'],
        r.data == Some(data),
        r.expected_status == CREATED,
{
    with_data(Method::Post, join_slash(base), data, CREATED)
}

/// The text a table cell shows for an optional value: the value, or nothing.
pub fn display_option(option: &Option<String>) -> (r: String)
    ensures
        r@ == match option {
            Some(v) => v@,
            None => Seq::<char>::empty(),
        },
{
    match option {
        Some(v) => v.clone(),
        None => String::new(),
    }
}


/// One for a present value, zero for an absent one: how many pairs an optional filter
/// adds to a query.
pub open spec fn present<T>(o: Option<T>) -> int {
    if o is Some {
        1
    } else {
        0
    }
}

/// The text of an optional text.
pub open spec fn opt_view(o: Option<String>) -> Option<Seq<char>> {
    match o {
        Some(s) => Some(s@),
        None => None,
    }
}

/// How `serde` writes a `bool`.
pub open spec fn bool_text(b: bool) -> Seq<char> {
    if b {
        "true"@
    } else {
        "false"@
    }
}

/// The pair an optional number contributes to a query: none when absent.
pub open spec fn opt_u32_pair(key: Seq<char>, v: Option<u32>) -> Seq<(Seq<char>, Seq<char>)> {
    match v {
        Some(x) => seq![(key, dec(x as nat))],
        None => Seq::empty(),
    }
}

/// The pair an optional flag contributes to a query: none when absent.
pub open spec fn opt_bool_pair(key: Seq<char>, v: Option<bool>) -> Seq<(Seq<char>, Seq<char>)> {
    match v {
        Some(b) => seq![(key, bool_text(b))],
        None => Seq::empty(),
    }
}

/// The pair an optional text contributes to a query: none when absent.
pub open spec fn opt_text_pair(key: Seq<char>, v: Option<Seq<char>>) -> Seq<(Seq<char>, Seq<char>)> {
    match v {
        Some(t) => seq![(key, t)],
        None => Seq::empty(),
    }
}

/// The pair an optional instant contributes to a query, in the form `serde` writes it.
pub open spec fn opt_time_pair(key: Seq<char>, v: Option<DateTime>) -> Seq<(Seq<char>, Seq<char>)> {
    match v {
        Some(t) => seq![(key, t.iso8601())],
        None => Seq::empty(),
    }
}

/// Appending a pair appends its texts.
pub proof fn lemma_pairs_view_push(ps: Seq<(String, String)>, p: (String, String))
    ensures
        pairs_view(ps.push(p)) == pairs_view(ps).push((p.0@, p.1@)),
{
    assert(pairs_view(ps.push(p)) =~= pairs_view(ps).push((p.0@, p.1@)));
}

/// Appends the pair `key=value`.
pub fn push_pair(pairs: &mut Vec<(String, String)>, key: &str, value: String)
    ensures
        pairs_view(final(pairs)@) == pairs_view(old(pairs)@).push((key@, value@)),
{
    let ghost before = pairs@;
    let k = key.to_owned();
    proof {
        lemma_pairs_view_push(before, (k, value));
    }
    pairs.push((k, value));
}

/// Appends `key=value` for a present number.
pub fn push_u32(pairs: &mut Vec<(String, String)>, key: &str, v: Option<u32>)
    ensures
        pairs_view(final(pairs)@) == pairs_view(old(pairs)@) + opt_u32_pair(key@, v),
{
    match v {
        Some(x) => {
            push_pair(pairs, key, u32_to_string(x));
            assert(pairs_view(pairs@) =~= pairs_view(old(pairs)@) + opt_u32_pair(key@, v));
        },
        None => {
            assert(pairs_view(pairs@) =~= pairs_view(old(pairs)@) + opt_u32_pair(key@, v));
        },
    }
}

/// Appends `key=true` or `key=false` for a present flag.
pub fn push_bool(pairs: &mut Vec<(String, String)>, key: &str, v: Option<bool>)
    ensures
        pairs_view(final(pairs)@) == pairs_view(old(pairs)@) + opt_bool_pair(key@, v),
{
    match v {
        Some(b) => {
            let t = if b {
                "true".to_owned()
            } else {
                "false".to_owned()
            };
            push_pair(pairs, key, t);
            assert(pairs_view(pairs@) =~= pairs_view(old(pairs)@) + opt_bool_pair(key@, v));
        },
        None => {
            assert(pairs_view(pairs@) =~= pairs_view(old(pairs)@) + opt_bool_pair(key@, v));
        },
    }
}

/// Appends `key=text` for a present text.
pub fn push_text(pairs: &mut Vec<(String, String)>, key: &str, v: &Option<String>)
    ensures
        pairs_view(final(pairs)@) == pairs_view(old(pairs)@) + opt_text_pair(key@, opt_view(*v)),
{
    match v {
        Some(t) => {
            push_pair(pairs, key, t.clone());
            assert(pairs_view(pairs@) =~= pairs_view(old(pairs)@) + opt_text_pair(
                key@,
                opt_view(*v),
            ));
        },
        None => {
            assert(pairs_view(pairs@) =~= pairs_view(old(pairs)@) + opt_text_pair(
                key@,
                opt_view(*v),
            ));
        },
    }
}

/// Appends `key=instant` for a present instant, in the form `serde` writes it.
pub fn push_time(pairs: &mut Vec<(String, String)>, key: &str, v: &Option<DateTime>)
    ensures
        pairs_view(final(pairs)@) == pairs_view(old(pairs)@) + opt_time_pair(key@, *v),
{
    match v {
        Some(t) => {
            push_pair(pairs, key, t.to_iso8601());
            assert(pairs_view(pairs@) =~= pairs_view(old(pairs)@) + opt_time_pair(key@, *v));
        },
        None => {
            assert(pairs_view(pairs@) =~= pairs_view(old(pairs)@) + opt_time_pair(key@, *v));
        },
    }
}

/// `base` followed by `suffix`.
pub fn join(base: &str, suffix: &str) -> (r: String)
    ensures
        r@ == base@ + suffix@,
{
    let mut s = base.to_owned();
    s.append(suffix);
    s
}

/// The URL of one item of a collection: `base/id`.
pub open spec fn item_url(base: Seq<char>, id: u32) -> Seq<char> {
    base + seq!['/'] + dec(id as nat)
}

/// `base/id`.
pub fn join_id(base: &str, id: u32) -> (r: String)
    ensures
        r@ == item_url(base@, id),
{
    let mut s = base.to_owned();
    proof { reveal_strlit("/"); }
    s.append("/");
    let n = u32_to_string(id);
    s.append(n.as_str());
    s
}

/// `base/id/`.
pub fn join_id_slash(base: &str, id: u32) -> (r: String)
    ensures
        r@ == item_url(base@, id) + seq!['/'],
{
    let mut s = join_id(base, id);
    proof { reveal_strlit("/"); }
    s.append("/");
    s
}

/// `base/`.
pub fn join_slash(base: &str) -> (r: String)
    ensures
        r@ == base@ + seq!['/'],
{
    let mut s = base.to_owned();
    proof { reveal_strlit("/"); }
    s.append("/");
    s
}


/// A copy of an optional text.
pub fn copy_opt_string(o: &Option<String>) -> (r: Option<String>)
    ensures
        r == *o,
{
    match o {
        Some(s) => Some(s.clone()),
        None => None,
    }
}

/// `prefix`, the id, `, name=`, the name and `suffix`: how items show themselves.
pub open spec fn id_name_text(prefix: Seq<char>, id: u32, name: Seq<char>, suffix: Seq<char>) -> Seq<
    char,
> {
    prefix + dec(id as nat) + ", name="@ + name + suffix
}

/// Renders `prefix`, the id, `, name=`, the name and `suffix`.
pub fn format_id_name(prefix: &str, id: u32, name: &str, suffix: &str) -> (r: String)
    ensures
        r@ == id_name_text(prefix@, id, name@, suffix@),
{
    let mut s = prefix.to_owned();
    let n = u32_to_string(id);
    s.append(n.as_str());
    s.append(", name=");
    s.append(name);
    s.append(suffix);
    s
}


/// What a `GET` with a parsed URL and query is: the request when the base parses, with
/// the URL that `parsed_with_params` gives, else
/// `UnexpectedError("Could not parse URL GET parameters.")`.
pub open spec fn planned_get(
    r: Result<Request<NoBody>, ApiError>,
    base: Seq<char>,
    ps: Seq<(Seq<char>, Seq<char>)>,
) -> bool {
    &&& (r is Ok <==> url_parse(base) is Some)
    &&& (r matches Ok(q) ==> {
        &&& q.method == Method::Get
        &&& q.data is None
        &&& q.expected_status == OK
        &&& q.url@ == parsed_with_params(base, ps)
    })
    &&& (r matches Err(e) ==> (e matches ApiError::UnexpectedError(m)
        && m@ == "Could not parse URL GET parameters."@))
}

/// A `GET` of `base` with the pairs appended by the URL parser.
pub fn get_with_params(base: &str, pairs: &Vec<(String, String)>) -> (r: Result<
    Request<NoBody>,
    ApiError,
>)
    ensures
        planned_get(r, base@, pairs_view(pairs@)),
{
    match url_with_params(base, pairs) {
        Ok(url) => Ok(bare(Method::Get, url, OK)),
        Err(e) => Err(e),
    }
}

/// A `GET` of `base` with the pairs as query string.
pub fn get_with_query(base: &str, pairs: &Vec<(String, String)>) -> (r: Request<NoBody>)
    ensures
        r.method == Method::Get,
        r.url@ == with_query(base@, pairs_view(pairs@)),
        r.data is None,
        r.expected_status == OK,
{
    bare(Method::Get, url_with_query(base, pairs), OK)
}

/// A `GET` of `base/id`, answered with `200 OK`.
pub fn get_item(base: &str, id: u32) -> (r: Request<NoBody>)
    ensures
        r.method == Method::Get,
        r.url@ == item_url(base@, id),
        r.data is None,
        r.expected_status == OK,
{
    bare(Method::Get, join_id(base, id), OK)
}

/// A `DELETE` of `base/id/`, answered with `204 No Content`.
pub fn delete_item(base: &str, id: u32) -> (r: Request<NoBody>)
    ensures
        r.method == Method::Delete,
        r.url@ == item_url(base@, id) + seq!['/'],
        r.data is None,
        r.expected_status == NO_CONTENT,
{
    bare(Method::Delete, join_id_slash(base, id), NO_CONTENT)
}

/// A `GET` of `base` followed by `suffix`, answered with `200 OK`.
pub fn get_suffix(base: &str, suffix: &str) -> (r: Request<NoBody>)
    ensures
        r.method == Method::Get,
        r.url@ == base@ + suffix@,
        r.data is None,
        r.expected_status == OK,
{
    bare(Method::Get, join(base, suffix), OK)
}

} // verus!
