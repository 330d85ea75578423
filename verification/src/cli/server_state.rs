//! The server state commands: which request each sends.
use crate::accounting::server_state::{
    ServerStateCreateData, ServerStateModifyData,
};
use crate::cli::{all_pair, is_delete, is_get, push_all};
use crate::common::{
    get_with_params, item_url, opt_text_pair, opt_u32_pair, opt_view, pairs_view, planned_get,
    push_text, push_u32, ApiError, Method, NoBody, Request, CREATED, OK,
};
use crate::datetime::DateTime;
use crate::text::dec;
use crate::Api;
use vstd::prelude::*;

verus! {

/// Which server states a listing shows: those of one server, of one user, of one
/// project, all of them, or the default set.
pub struct ServerStateListFilter {
    pub server: Option<String>,
    pub user: Option<u32>,
    pub project: Option<u32>,
    pub all: bool,
}

/// The scope of a server state listing or cost report: `server=<s>` for one server, else
/// `user=<u>` for one user, else `project=<p>` for one project, else `all=1` for all of
/// them, else none.
pub open spec fn scope_pairs(
    server: Option<String>,
    user: Option<u32>,
    project: Option<u32>,
    all: bool,
) -> Seq<(Seq<char>, Seq<char>)> {
    if server is Some {
        opt_text_pair("server"@, opt_view(server))
    } else if user is Some {
        opt_u32_pair("user"@, user)
    } else if project is Some {
        opt_u32_pair("project"@, project)
    } else if all {
        all_pair()
    } else {
        Seq::empty()
    }
}

/// Appends the scope pairs.
pub fn push_scope(
    pairs: &mut Vec<(String, String)>,
    server: &Option<String>,
    user: Option<u32>,
    project: Option<u32>,
    all: bool,
)
    ensures
        pairs_view(final(pairs)@) == pairs_view(old(pairs)@) + scope_pairs(*server, user, project, all),
{
    let ghost before = pairs_view(pairs@);
    if server.is_some() {
        push_text(pairs, "server", server);
    } else if user.is_some() {
        push_u32(pairs, "user", user);
    } else if project.is_some() {
        push_u32(pairs, "project", project);
    } else if all {
        push_all(pairs);
    }
    assert(pairs_view(pairs@) =~= before + scope_pairs(*server, user, project, all));
}

/// The query a server state listing sends: its scope.
pub open spec fn list_pairs(filter: ServerStateListFilter) -> Seq<(Seq<char>, Seq<char>)> {
    scope_pairs(filter.server, filter.user, filter.project, filter.all)
}

/// The listing that `server-state list` sends: `GET` of the server state URL as the URL
/// parser writes it, with the query appended.
pub fn list(api: &Api, filter: &ServerStateListFilter) -> (r: Result<Request<NoBody>, ApiError>)
    ensures
        planned_get(r, api.server_state.url@, list_pairs(*filter)),
{
    let mut pairs: Vec<(String, String)> = Vec::new();
    assert(pairs_view(pairs@) =~= Seq::empty());
    push_scope(&mut pairs, &filter.server, filter.user, filter.project, filter.all);
    assert(pairs_view(pairs@) =~= list_pairs(*filter));
    get_with_params(api.server_state.url.as_str(), &pairs)
}

/// `GET` of the server state with this id.
pub fn get(api: &Api, id: u32) -> (r: Request<NoBody>)
    ensures
        is_get(r, item_url(api.server_state.url@, id)),
{
    api.server_state.get(id)
}

/// The creation that `server-state create` sends.
pub fn create(
    api: &Api,
    begin: DateTime,
    end: Option<DateTime>,
    instance_id: String,
    instance_name: String,
    flavor: u32,
    status: String,
    user: u32,
) -> (r: Request<ServerStateCreateData>)
    ensures
        r.method == Method::Post,
        r.url@ == api.server_state.url@ + seq!['/'],
        r.data == Some(
            ServerStateCreateData { begin, end, instance_id, instance_name, flavor, status, user },
        ),
        r.expected_status == CREATED,
{
    let mut request = api.server_state.create(begin, instance_id, instance_name, flavor, status, user);
    if let Some(end) = end {
        request.end(end);
    }
    request.send()
}

/// The change that `server-state modify` sends: exactly the fields given.
pub fn modify(
    api: &Api,
    id: u32,
    begin: Option<DateTime>,
    end: Option<DateTime>,
    instance_id: Option<String>,
    instance_name: Option<String>,
    flavor: Option<u32>,
    status: Option<String>,
    user: Option<u32>,
) -> (r: Request<ServerStateModifyData>)
    ensures
        r.method == Method::Patch,
        r.url@ == item_url(api.server_state.url@, id) + seq!['/'],
        r.data == Some(
            ServerStateModifyData {
                id,
                begin,
                end,
                instance_id,
                instance_name,
                flavor,
                status,
                user,
            },
        ),
        r.expected_status == OK,
{
    let mut request = api.server_state.modify(id);
    if let Some(begin) = begin {
        request.begin(begin);
    }
    if let Some(end) = end {
        request.end(end);
    }
    if let Some(instance_id) = instance_id {
        request.instance_id(instance_id);
    }
    if let Some(instance_name) = instance_name {
        request.instance_name(instance_name);
    }
    if let Some(flavor) = flavor {
        request.flavor(flavor);
    }
    if let Some(status) = status {
        request.status(status);
    }
    if let Some(user) = user {
        request.user(user);
    }
    request.send()
}

/// `DELETE` of the server state with this id.
pub fn delete(api: &Api, id: u32) -> (r: Request<NoBody>)
    ensures
        is_delete(r, item_url(api.server_state.url@, id) + seq!['/']),
{
    api.server_state.delete(id)
}

/// The scope of a server state listing or cost report is exactly the first filter given,
/// in the order server, user, project, everything: `server=<s>`, `user=<u>`,
/// `project=<p>` or `all=1`, and nothing when none is given.
pub proof fn lemma_scope_query(server: Option<String>, user: Option<u32>, project: Option<u32>, all: bool)
    ensures
        server matches Some(s) ==> scope_pairs(server, user, project, all) == seq![("server"@, s@)],
        (server is None && user is Some) ==> scope_pairs(server, user, project, all) == seq![
            ("user"@, dec(user->0 as nat)),
        ],
        (server is None && user is None && project is Some) ==> scope_pairs(server, user, project, all)
            == seq![("project"@, dec(project->0 as nat))],
        (server is None && user is None && project is None && all) ==> scope_pairs(
            server,
            user,
            project,
            all,
        ) == seq![("all"@, "1"@)],
        (server is None && user is None && project is None && !all) ==> scope_pairs(
            server,
            user,
            project,
            all,
        ).len() == 0,
{
}

} // verus!
