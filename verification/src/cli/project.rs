//! The project commands: which request each sends.
use crate::cli::{all_pair, is_delete, is_get, push_all};
use crate::common::{
    get_with_params, item_url, opt_u32_pair, pairs_view, planned_get, push_u32, ApiError, Method,
    NoBody, Request, CREATED,
};
use crate::user::project::ProjectCreateData;
use crate::Api;
use vstd::prelude::*;

verus! {

/// Which projects a listing shows: all of them, those of one user class, or the
/// default set.
pub struct ProjectListFilter {
    pub all: bool,
    pub user_class: Option<u32>,
}

/// The query a project listing sends: `all=1` for all projects, else `userclass=<c>` for
/// one user class, else none.
pub open spec fn list_pairs(filter: ProjectListFilter) -> Seq<(Seq<char>, Seq<char>)> {
    if filter.all {
        all_pair()
    } else {
        opt_u32_pair("userclass"@, filter.user_class)
    }
}

/// The listing that `project list` sends: `GET` of the project URL as the URL parser
/// writes it, with the query appended.
pub fn list(api: &Api, filter: &ProjectListFilter) -> (r: Result<Request<NoBody>, ApiError>)
    ensures
        planned_get(r, api.project.url@, list_pairs(*filter)),
{
    let mut pairs: Vec<(String, String)> = Vec::new();
    assert(pairs_view(pairs@) =~= Seq::empty());
    if filter.all {
        push_all(&mut pairs);
    } else {
        push_u32(&mut pairs, "userclass", filter.user_class);
    }
    assert(pairs_view(pairs@) =~= list_pairs(*filter));
    get_with_params(api.project.url.as_str(), &pairs)
}

/// `GET` of the project with this id.
pub fn get(api: &Api, id: u32) -> (r: Request<NoBody>)
    ensures
        is_get(r, item_url(api.project.url@, id)),
{
    api.project.get(id)
}

/// The creation that `project create` sends.
pub fn create(api: &Api, name: String, openstack_id: String, user_class: Option<u32>) -> (r:
    Request<ProjectCreateData>)
    ensures
        r.method == Method::Post,
        r.url@ == api.project.url@ + seq!['/'],
        r.data == Some(ProjectCreateData { name, openstack_id, user_class }),
        r.expected_status == CREATED,
{
    let mut request = api.project.create(name, openstack_id);
    if let Some(user_class) = user_class {
        request.user_class(user_class);
    }
    request.send()
}

/// `DELETE` of the project with this id.
pub fn delete(api: &Api, id: u32) -> (r: Request<NoBody>)
    ensures
        is_delete(r, item_url(api.project.url@, id) + seq!['/']),
{
    api.project.delete(id)
}

/// `project list` asks for all projects with `all=1`, else for one user class's with
/// `userclass=<c>`, else for the default set with no query.
pub proof fn lemma_list_query(f: ProjectListFilter)
    ensures
        f.all ==> list_pairs(f) == seq![("all"@, "1"@)],
        (!f.all && f.user_class is Some) ==> list_pairs(f) == seq![
            ("userclass"@, crate::text::dec(f.user_class->0 as nat)),
        ],
        (!f.all && f.user_class is None) ==> list_pairs(f).len() == 0,
{
}

} // verus!
