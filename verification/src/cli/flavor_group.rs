//! The flavor group commands: which request each sends.
use crate::cli::{is_delete, is_get};
use crate::common::{item_url, planned_get, ApiError, Method, NoBody, Request, CREATED, OK};
use crate::resources::flavor_group::{list_pairs, FlavorGroupCreateData, FlavorGroupModifyData};
use crate::Api;
use vstd::prelude::*;

verus! {

/// Which flavor groups a listing shows: all of them, or the default set.
pub struct FlavorGroupListFilter {
    pub all: bool,
}

/// The listing that `flavor-group list` sends.
pub fn list(api: &Api, filter: &FlavorGroupListFilter) -> (r: Result<Request<NoBody>, ApiError>)
    ensures
        planned_get(r, api.flavor_group.url@, list_pairs(filter.all)),
{
    let mut request = api.flavor_group.list();
    if filter.all {
        request.all();
    }
    request.send()
}

/// `GET` of the flavor group with this id.
pub fn get(api: &Api, id: u32) -> (r: Request<NoBody>)
    ensures
        is_get(r, item_url(api.flavor_group.url@, id)),
{
    api.flavor_group.get(id)
}

/// The creation that `flavor-group create` sends: the name, and no flavors yet.
pub fn create(api: &Api, name: String) -> (r: Request<FlavorGroupCreateData>)
    ensures
        r.method == Method::Post,
        r.url@ == api.flavor_group.url@ + seq!['/'],
        r.data matches Some(d) && d.name == name && d.flavors@ == Seq::<u32>::empty(),
        r.expected_status == CREATED,
{
    api.flavor_group.create(name).send()
}

/// The change that `flavor-group modify` sends: exactly the fields given.
pub fn modify(api: &Api, id: u32, name: Option<String>, project: Option<u32>) -> (r: Request<
    FlavorGroupModifyData,
>)
    ensures
        r.method == Method::Patch,
        r.url@ == item_url(api.flavor_group.url@, id) + seq!['/'],
        r.data == Some(FlavorGroupModifyData { id, name, project }),
        r.expected_status == OK,
{
    let mut request = api.flavor_group.modify(id);
    if let Some(name) = name {
        request.name(name);
    }
    if let Some(project) = project {
        request.project(project);
    }
    request.send()
}

/// `DELETE` of the flavor group with this id.
pub fn delete(api: &Api, id: u32) -> (r: Request<NoBody>)
    ensures
        is_delete(r, item_url(api.flavor_group.url@, id) + seq!['/']),
{
    api.flavor_group.delete(id)
}

} // verus!
