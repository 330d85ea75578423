//! The flavor quota commands: which request each sends, once the flavor group and user
//! named on the command line are resolved to ids.
use crate::cli::{all_pair, is_delete, is_get, push_all};
use crate::common::{
    get_with_params, item_url, opt_u32_pair, pairs_view, planned_get, push_u32, ApiError, Method,
    NoBody, Request, CREATED, OK,
};
use crate::quota::flavor_quota::{FlavorQuotaCreateData, FlavorQuotaModifyData};
use crate::Api;
use vstd::prelude::*;

verus! {

/// Which flavor quotas a listing shows: all of them, those of one flavor group, those of
/// one user, or the default set.
pub struct FlavorQuotaListFilter {
    pub all: bool,
    pub group: Option<u32>,
    pub user: Option<u32>,
}

/// The query a flavor quota listing sends: `all=1` for all quotas, else
/// `flavorgroup=<g>` for one flavor group, else `user=<u>` for one user, else none.
pub open spec fn list_pairs(filter: FlavorQuotaListFilter) -> Seq<(Seq<char>, Seq<char>)> {
    if filter.all {
        all_pair()
    } else if filter.group is Some {
        opt_u32_pair("flavorgroup"@, filter.group)
    } else {
        opt_u32_pair("user"@, filter.user)
    }
}

/// The listing that `flavor-quota list` sends: `GET` of the flavor quota URL as the URL
/// parser writes it, with the query appended.
pub fn list(api: &Api, filter: &FlavorQuotaListFilter) -> (r: Result<Request<NoBody>, ApiError>)
    ensures
        planned_get(r, api.flavor_quota.url@, list_pairs(*filter)),
{
    let mut pairs: Vec<(String, String)> = Vec::new();
    assert(pairs_view(pairs@) =~= Seq::empty());
    if filter.all {
        push_all(&mut pairs);
    } else if filter.group.is_some() {
        push_u32(&mut pairs, "flavorgroup", filter.group);
    } else {
        push_u32(&mut pairs, "user", filter.user);
    }
    assert(pairs_view(pairs@) =~= list_pairs(*filter));
    get_with_params(api.flavor_quota.url.as_str(), &pairs)
}

/// The user name a listing needs looked up: the one given, when neither `all` nor a group
/// comes before it.
pub fn user_to_find(all: bool, group: Option<u32>, user: &Option<String>) -> (r: Option<String>)
    ensures
        r == (if !all && group is None { *user } else { None }),
{
    if !all && group.is_none() {
        match user {
            Some(u) => Some(u.clone()),
            None => None,
        }
    } else {
        None
    }
}

/// `GET` of the flavor quota with this id.
pub fn get(api: &Api, id: u32) -> (r: Request<NoBody>)
    ensures
        is_get(r, item_url(api.flavor_quota.url@, id)),
{
    api.flavor_quota.get(id)
}

/// The creation that `flavor-quota create` sends; without a quota it is `-1`, unlimited.
pub fn create(api: &Api, flavor_group: u32, user: u32, quota: Option<i64>) -> (r: Request<
    FlavorQuotaCreateData,
>)
    ensures
        r.method == Method::Post,
        r.url@ == api.flavor_quota.url@ + seq!['/'],
        r.data == Some(
            FlavorQuotaCreateData {
                flavor_group,
                user,
                quota: match quota {
                    Some(q) => q,
                    None => -1i64,
                },
            },
        ),
        r.expected_status == CREATED,
{
    let mut request = api.flavor_quota.create(flavor_group, user);
    if let Some(quota) = quota {
        request.quota(quota);
    }
    request.send()
}

/// The change that `flavor-quota modify` sends: exactly the fields given.
pub fn modify(
    api: &Api,
    id: u32,
    user: Option<u32>,
    quota: Option<i64>,
    flavor_group: Option<u32>,
) -> (r: Request<FlavorQuotaModifyData>)
    ensures
        r.method == Method::Patch,
        r.url@ == item_url(api.flavor_quota.url@, id) + seq!['/'],
        r.data == Some(FlavorQuotaModifyData { id, user, quota, flavor_group }),
        r.expected_status == OK,
{
    let mut request = api.flavor_quota.modify(id);
    if let Some(user) = user {
        request.user(user);
    }
    if let Some(quota) = quota {
        request.quota(quota);
    }
    if let Some(flavor_group) = flavor_group {
        request.flavor_group(flavor_group);
    }
    request.send()
}

/// `DELETE` of the flavor quota with this id.
pub fn delete(api: &Api, id: u32) -> (r: Request<NoBody>)
    ensures
        is_delete(r, item_url(api.flavor_quota.url@, id) + seq!['/']),
{
    api.flavor_quota.delete(id)
}

/// `flavor-quota list` asks for all quotas with `all=1`, else for one flavor group's with
/// `flavorgroup=<g>`, else for one user's with `user=<u>`, else for the default set.
pub proof fn lemma_list_query(f: FlavorQuotaListFilter)
    ensures
        f.all ==> list_pairs(f) == seq![("all"@, "1"@)],
        (!f.all && f.group is Some) ==> list_pairs(f) == seq![
            ("flavorgroup"@, crate::text::dec(f.group->0 as nat)),
        ],
        (!f.all && f.group is None && f.user is Some) ==> list_pairs(f) == seq![
            ("user"@, crate::text::dec(f.user->0 as nat)),
        ],
        (!f.all && f.group is None && f.user is None) ==> list_pairs(f).len() == 0,
{
}

} // verus!
