//! The server cost command: which report it asks for, once the user and project named
//! on the command line are resolved to ids.
use crate::cli::server_state::{push_scope, scope_pairs};
use crate::common::{get_with_params, pairs_view, planned_get, push_pair, ApiError, NoBody, Request};
use crate::datetime::DateTime;
use crate::Api;
use vstd::prelude::*;

verus! {

/// Whose cost a report shows: one server's, one user's, one project's, the whole
/// cloud's, or by default one's own.
pub struct ServerCostFilter {
    pub server: Option<String>,
    pub user: Option<u32>,
    pub project: Option<u32>,
    pub all: bool,
}

/// The query a cost report sends: the period's begin and end in RFC 3339, then its
/// scope.
pub open spec fn cost_pairs(
    begin: Option<DateTime>,
    end: Option<DateTime>,
    filter: ServerCostFilter,
) -> Seq<(Seq<char>, Seq<char>)> {
    (match begin {
        Some(b) => seq![("begin"@, b.rfc3339())],
        None => Seq::empty(),
    }) + (match end {
        Some(e) => seq![("end"@, e.rfc3339())],
        None => Seq::empty(),
    }) + scope_pairs(filter.server, filter.user, filter.project, filter.all)
}

/// The report that `server-cost` asks for: `GET` of the cost URL as the URL parser writes
/// it, with the query appended.
pub fn server_cost(
    api: &Api,
    begin: Option<DateTime>,
    end: Option<DateTime>,
    filter: &ServerCostFilter,
) -> (r: Result<Request<NoBody>, ApiError>)
    ensures
        planned_get(r, api.server_cost.url@, cost_pairs(begin, end, *filter)),
{
    let mut pairs: Vec<(String, String)> = Vec::new();
    assert(pairs_view(pairs@) =~= Seq::empty());
    match &begin {
        Some(b) => push_pair(&mut pairs, "begin", b.to_rfc3339()),
        None => {},
    }
    match &end {
        Some(e) => push_pair(&mut pairs, "end", e.to_rfc3339()),
        None => {},
    }
    push_scope(&mut pairs, &filter.server, filter.user, filter.project, filter.all);
    assert(pairs_view(pairs@) =~= cost_pairs(begin, end, *filter));
    get_with_params(api.server_cost.url.as_str(), &pairs)
}

/// The user name a report needs looked up: the one given, when no server comes before it.
pub fn user_to_find(server: &Option<String>, user: &Option<String>) -> (r: Option<String>)
    ensures
        r == (if server is None { *user } else { None }),
{
    if server.is_none() {
        match user {
            Some(u) => Some(u.clone()),
            None => None,
        }
    } else {
        None
    }
}

/// A cost report's query is the begin, then the end, each in RFC 3339 when given, then
/// the scope the filter asks for.
pub proof fn lemma_cost_query(begin: Option<DateTime>, end: Option<DateTime>, f: ServerCostFilter)
    ensures
        ({
            let ps = cost_pairs(begin, end, f);
            let nb: int = if begin is Some { 1 } else { 0 };
            let ne: int = if end is Some { 1 } else { 0 };
            &&& ps.len() == nb + ne + scope_pairs(f.server, f.user, f.project, f.all).len()
            &&& (begin matches Some(b) ==> ps[0] == ("begin"@, b.rfc3339()))
            &&& (end matches Some(e) ==> ps[nb] == ("end"@, e.rfc3339()))
            &&& ps.subrange(nb + ne, ps.len() as int) == scope_pairs(f.server, f.user, f.project, f.all)
        }),
{
    let ps = cost_pairs(begin, end, f);
    let nb: int = if begin is Some { 1 } else { 0 };
    let ne: int = if end is Some { 1 } else { 0 };
    assert(ps.subrange(nb + ne, ps.len() as int) =~= scope_pairs(f.server, f.user, f.project, f.all));
}

} // verus!
