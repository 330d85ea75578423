//! Flavors: listing, reading, creating, changing, deleting and importing them, and
//! their usage.
use crate::common::{
    copy_opt_string, format_id_name, get_item, get_suffix, get_with_params, get_with_query,
    id_name_text, item_url, join, join_id_slash, join_slash, delete_item, opt_bool_pair,
    opt_u32_pair, pairs_view, planned_get, push_bool, push_u32, with_data, with_query, ApiError,
    Method, NoBody, Request, CREATED, NO_CONTENT, OK,
};
use crate::resources::flavor_group::FlavorGroupMinimal;
use crate::resources::{usage_pairs, usage_params};
use vstd::prelude::*;

verus! {

/// A flavor as the API lists it.
#[derive(Debug, Clone)]
pub struct Flavor {
    pub id: u32,
    pub name: String,
    pub openstack_id: String,
    pub group: Option<u32>,
    pub group_name: Option<String>,
    pub weight: u32,
}

impl Flavor {
    /// `Flavor(id=<id>, name=<name>)`.
    pub fn to_string(&self) -> (r: String)
        ensures
            r@ == id_name_text("Flavor(id="@, self.id, self.name@, ")"@),
    {
        format_id_name("Flavor(id=", self.id, self.name.as_str(), ")")
    }
}

/// A flavor by id and name only.
#[derive(Debug, Clone)]
pub struct FlavorMinimal {
    pub id: u32,
    pub name: String,
}

impl FlavorMinimal {
    /// `Flavor(id=<id>, name=<name>)`.
    pub fn to_string(&self) -> (r: String)
        ensures
            r@ == id_name_text("Flavor(id="@, self.id, self.name@, ")"@),
    {
        format_id_name("Flavor(id=", self.id, self.name.as_str(), ")")
    }
}

/// A flavor with its group spelled out.
#[derive(Debug, Clone)]
pub struct FlavorDetailed {
    pub id: u32,
    pub name: String,
    pub openstack_id: String,
    pub group: Option<FlavorGroupMinimal>,
    pub group_name: Option<String>,
    pub weight: u32,
}

impl FlavorDetailed {
    /// `Flavor(id=<id>, name=<name>)`.
    pub fn to_string(&self) -> (r: String)
        ensures
            r@ == id_name_text("Flavor(id="@, self.id, self.name@, ")"@),
    {
        format_id_name("Flavor(id=", self.id, self.name.as_str(), ")")
    }
}

/// The filters of a flavor listing; the group goes out as `flavorgroup`.
#[derive(Debug, Clone, Copy, PartialEq, Eq, Structural)]
pub struct FlavorListParams {
    pub all: Option<bool>,
    pub group: Option<u32>,
}

impl FlavorListParams {
    /// The query pairs, in field order, without absent fields.
    pub open spec fn pairs(self) -> Seq<(Seq<char>, Seq<char>)> {
        opt_bool_pair("all"@, self.all) + opt_u32_pair("flavorgroup"@, self.group)
    }

    pub fn to_pairs(&self) -> (r: Vec<(String, String)>)
        ensures
            pairs_view(r@) == self.pairs(),
    {
        let mut v: Vec<(String, String)> = Vec::new();
        assert(pairs_view(v@) =~= Seq::empty());
        push_bool(&mut v, "all", self.all);
        push_u32(&mut v, "flavorgroup", self.group);
        assert(pairs_view(v@) =~= self.pairs());
        v
    }
}

/// A flavor listing to send.
pub struct FlavorListRequest {
    pub url: String,
    pub params: FlavorListParams,
}

impl FlavorListRequest {
    pub fn new(url: &str) -> (r: Self)
        ensures
            r.url@ == url@,
            r.params == (FlavorListParams { all: None, group: None }),
    {
        FlavorListRequest { url: url.to_owned(), params: FlavorListParams { all: None, group: None } }
    }

    /// Lists all flavors.
    pub fn all(&mut self) -> (r: &mut Self)
        ensures
            r.url == old(self).url,
            r.params == (FlavorListParams { all: Some(true), ..old(self).params }),
            *final(self) == *final(r),
    {
        self.params.all = Some(true);
        self
    }

    /// Lists the flavors of one group.
    pub fn group(&mut self, group: u32) -> (r: &mut Self)
        ensures
            r.url == old(self).url,
            r.params == (FlavorListParams { group: Some(group), ..old(self).params }),
            *final(self) == *final(r),
    {
        self.params.group = Some(group);
        self
    }

    /// `GET` of the listing URL with the filters as query.
    pub fn send(&self) -> (r: Request<NoBody>)
        ensures
            r.method == Method::Get,
            r.url@ == with_query(self.url@, self.params.pairs()),
            r.data is None,
            r.expected_status == OK,
    {
        let pairs = self.params.to_pairs();
        get_with_query(self.url.as_str(), &pairs)
    }
}

/// The body of a flavor creation.
#[derive(Debug)]
pub struct FlavorCreateData {
    pub name: String,
    pub openstack_id: String,
    pub group: Option<u32>,
    pub weight: Option<u32>,
}

impl FlavorCreateData {
    pub fn new(name: String, openstack_id: String) -> (r: Self)
        ensures
            r == (FlavorCreateData { name, openstack_id, group: None, weight: None }),
    {
        FlavorCreateData { name, openstack_id, group: None, weight: None }
    }

    pub fn duplicate(&self) -> (r: Self)
        ensures
            r == *self,
    {
        FlavorCreateData {
            name: self.name.clone(),
            openstack_id: self.openstack_id.clone(),
            group: self.group,
            weight: self.weight,
        }
    }
}

/// A flavor creation to send.
pub struct FlavorCreateRequest {
    pub url: String,
    pub data: FlavorCreateData,
}

impl FlavorCreateRequest {
    pub fn new(url: &str, name: String, openstack_id: String) -> (r: Self)
        ensures
            r.url@ == url@,
            r.data == (FlavorCreateData { name, openstack_id, group: None, weight: None }),
    {
        FlavorCreateRequest { url: url.to_owned(), data: FlavorCreateData::new(name, openstack_id) }
    }

    pub fn group(&mut self, group: u32) -> (r: &mut Self)
        ensures
            r.url == old(self).url,
            r.data == (FlavorCreateData { group: Some(group), ..old(self).data }),
            *final(self) == *final(r),
    {
        self.data.group = Some(group);
        self
    }

    pub fn weight(&mut self, weight: u32) -> (r: &mut Self)
        ensures
            r.url == old(self).url,
            r.data == (FlavorCreateData { weight: Some(weight), ..old(self).data }),
            *final(self) == *final(r),
    {
        self.data.weight = Some(weight);
        self
    }

    /// `POST` of the data, answered with `201 Created`.
    pub fn send(&self) -> (r: Request<FlavorCreateData>)
        ensures
            r.method == Method::Post,
            r.url@ == self.url@,
            r.data == Some(self.data),
            r.expected_status == CREATED,
    {
        with_data(Method::Post, self.url.clone(), self.data.duplicate(), CREATED)
    }
}

/// The body of a flavor change. The group is doubly optional: absent leaves it as it
/// is, `Some(None)` takes the flavor out of its group.
#[derive(Debug)]
pub struct FlavorModifyData {
    pub id: u32,
    pub name: Option<String>,
    pub openstack_id: Option<String>,
    pub group: Option<Option<u32>>,
    pub weight: Option<u32>,
}

impl FlavorModifyData {
    pub fn new(id: u32) -> (r: Self)
        ensures
            r == (FlavorModifyData { id, name: None, openstack_id: None, group: None, weight: None }),
    {
        FlavorModifyData { id, name: None, openstack_id: None, group: None, weight: None }
    }

    pub fn duplicate(&self) -> (r: Self)
        ensures
            r == *self,
    {
        FlavorModifyData {
            id: self.id,
            name: copy_opt_string(&self.name),
            openstack_id: copy_opt_string(&self.openstack_id),
            group: self.group,
            weight: self.weight,
        }
    }
}

/// A flavor change to send.
pub struct FlavorModifyRequest {
    pub url: String,
    pub data: FlavorModifyData,
}

impl FlavorModifyRequest {
    pub fn new(url: &str, id: u32) -> (r: Self)
        ensures
            r.url@ == url@,
            r.data == (FlavorModifyData { id, name: None, openstack_id: None, group: None, weight: None }),
    {
        FlavorModifyRequest { url: url.to_owned(), data: FlavorModifyData::new(id) }
    }

    pub fn name(&mut self, name: String) -> (r: &mut Self)
        ensures
            r.url == old(self).url,
            r.data == (FlavorModifyData { name: Some(name), ..old(self).data }),
            *final(self) == *final(r),
    {
        self.data.name = Some(name);
        self
    }

    pub fn openstack_id(&mut self, openstack_id: String) -> (r: &mut Self)
        ensures
            r.url == old(self).url,
            r.data == (FlavorModifyData { openstack_id: Some(openstack_id), ..old(self).data }),
            *final(self) == *final(r),
    {
        self.data.openstack_id = Some(openstack_id);
        self
    }

    /// Moves the flavor into a group.
    pub fn group(&mut self, group: u32) -> (r: &mut Self)
        ensures
            r.url == old(self).url,
            r.data == (FlavorModifyData { group: Some(Some(group)), ..old(self).data }),
            *final(self) == *final(r),
    {
        self.data.group = Some(Some(group));
        self
    }

    /// Takes the flavor out of its group.
    pub fn no_group(&mut self) -> (r: &mut Self)
        ensures
            r.url == old(self).url,
            r.data == (FlavorModifyData { group: Some(None), ..old(self).data }),
            *final(self) == *final(r),
    {
        self.data.group = Some(None);
        self
    }

    pub fn weight(&mut self, weight: u32) -> (r: &mut Self)
        ensures
            r.url == old(self).url,
            r.data == (FlavorModifyData { weight: Some(weight), ..old(self).data }),
            *final(self) == *final(r),
    {
        self.data.weight = Some(weight);
        self
    }

    /// `PATCH` of the data, answered with `200 OK`.
    pub fn send(&self) -> (r: Request<FlavorModifyData>)
        ensures
            r.method == Method::Patch,
            r.url@ == self.url@,
            r.data == Some(self.data),
            r.expected_status == OK,
    {
        with_data(Method::Patch, self.url.clone(), self.data.duplicate(), OK)
    }
}

/// A report on flavor usage to send.
pub struct FlavorUsageRequest {
    pub url: String,
    pub user: Option<u32>,
    pub project: Option<u32>,
    pub all: bool,
    pub aggregate: bool,
}

impl FlavorUsageRequest {
    pub fn new(url: &str) -> (r: Self)
        ensures
            r.url@ == url@,
            r.user is None && r.project is None && !r.all && !r.aggregate,
    {
        FlavorUsageRequest { url: url.to_owned(), user: None, project: None, all: false, aggregate: false }
    }

    /// The query of this report.
    pub open spec fn pairs(self) -> Seq<(Seq<char>, Seq<char>)> {
        usage_pairs(self.user, self.project, self.all, self.aggregate)
    }

    pub fn params(&self) -> (r: Vec<(String, String)>)
        ensures
            pairs_view(r@) == self.pairs(),
    {
        usage_params(self.user, self.project, self.all, self.aggregate)
    }

    /// The per-flavor usage of a user.
    pub fn user(&mut self, user: u32) -> (r: Result<Request<NoBody>, ApiError>)
        ensures
            *final(self) == (FlavorUsageRequest { user: Some(user), aggregate: false, ..*old(self) }),
            planned_get(r, final(self).url@, final(self).pairs()),
    {
        self.user = Some(user);
        self.aggregate = false;
        get_with_params(self.url.as_str(), &self.params())
    }

    /// The aggregated usage of a user.
    pub fn user_aggregate(&mut self, user: u32) -> (r: Result<Request<NoBody>, ApiError>)
        ensures
            *final(self) == (FlavorUsageRequest { user: Some(user), aggregate: true, ..*old(self) }),
            planned_get(r, final(self).url@, final(self).pairs()),
    {
        self.user = Some(user);
        self.aggregate = true;
        get_with_params(self.url.as_str(), &self.params())
    }

    /// The per-flavor usage of a project.
    pub fn project(&mut self, project: u32) -> (r: Result<Request<NoBody>, ApiError>)
        ensures
            *final(self) == (FlavorUsageRequest { project: Some(project), aggregate: false, ..*old(self) }),
            planned_get(r, final(self).url@, final(self).pairs()),
    {
        self.project = Some(project);
        self.aggregate = false;
        get_with_params(self.url.as_str(), &self.params())
    }

    /// The aggregated usage of a project.
    pub fn project_aggregate(&mut self, project: u32) -> (r: Result<Request<NoBody>, ApiError>)
        ensures
            *final(self) == (FlavorUsageRequest { project: Some(project), aggregate: true, ..*old(self) }),
            planned_get(r, final(self).url@, final(self).pairs()),
    {
        self.project = Some(project);
        self.aggregate = true;
        get_with_params(self.url.as_str(), &self.params())
    }

    /// The per-flavor usage of the whole cloud.
    pub fn all(&mut self) -> (r: Result<Request<NoBody>, ApiError>)
        ensures
            *final(self) == (FlavorUsageRequest { all: true, aggregate: false, ..*old(self) }),
            planned_get(r, final(self).url@, final(self).pairs()),
    {
        self.all = true;
        self.aggregate = false;
        get_with_params(self.url.as_str(), &self.params())
    }

    /// The aggregated usage of the whole cloud.
    pub fn all_aggregate(&mut self) -> (r: Result<Request<NoBody>, ApiError>)
        ensures
            *final(self) == (FlavorUsageRequest { all: true, aggregate: true, ..*old(self) }),
            planned_get(r, final(self).url@, final(self).pairs()),
    {
        self.all = true;
        self.aggregate = true;
        get_with_params(self.url.as_str(), &self.params())
    }

    /// One's own per-flavor usage.
    pub fn mine(&mut self) -> (r: Result<Request<NoBody>, ApiError>)
        ensures
            *final(self) == (FlavorUsageRequest { aggregate: false, ..*old(self) }),
            planned_get(r, final(self).url@, final(self).pairs()),
    {
        self.aggregate = false;
        get_with_params(self.url.as_str(), &self.params())
    }

    /// One's own aggregated usage.
    pub fn mine_aggregate(&mut self) -> (r: Result<Request<NoBody>, ApiError>)
        ensures
            *final(self) == (FlavorUsageRequest { aggregate: true, ..*old(self) }),
            planned_get(r, final(self).url@, final(self).pairs()),
    {
        self.aggregate = true;
        get_with_params(self.url.as_str(), &self.params())
    }
}

/// The flavor endpoints under `/resources/flavors`.
pub struct FlavorApi {
    pub url: String,
}

impl FlavorApi {
    pub fn new(base_url: &str) -> (r: FlavorApi)
        ensures
            r.url@ == base_url@ + "/resources/flavors"@,
    {
        FlavorApi { url: join(base_url, "/resources/flavors") }
    }

    /// A listing of the flavors, without filters yet.
    pub fn list(&self) -> (r: FlavorListRequest)
        ensures
            r.url@ == self.url@,
            r.params == (FlavorListParams { all: None, group: None }),
    {
        FlavorListRequest::new(self.url.as_str())
    }

    /// `GET <url>/<id>`.
    pub fn get(&self, id: u32) -> (r: Request<NoBody>)
        ensures
            r.method == Method::Get,
            r.url@ == item_url(self.url@, id),
            r.data is None,
            r.expected_status == OK,
    {
        get_item(self.url.as_str(), id)
    }

    /// A creation, sent to `<url>/`.
    pub fn create(&self, name: String, openstack_id: String) -> (r: FlavorCreateRequest)
        ensures
            r.url@ == self.url@ + seq!['/'],
            r.data == (FlavorCreateData { name, openstack_id, group: None, weight: None }),
    {
        let url = join_slash(self.url.as_str());
        FlavorCreateRequest::new(url.as_str(), name, openstack_id)
    }

    /// A change, sent to `<url>/<id>/`.
    pub fn modify(&self, id: u32) -> (r: FlavorModifyRequest)
        ensures
            r.url@ == item_url(self.url@, id) + seq!['/'],
            r.data == (FlavorModifyData { id, name: None, openstack_id: None, group: None, weight: None }),
    {
        let url = join_id_slash(self.url.as_str(), id);
        FlavorModifyRequest::new(url.as_str(), id)
    }

    /// `DELETE <url>/<id>/`, answered with `204 No Content`.
    pub fn delete(&self, id: u32) -> (r: Request<NoBody>)
        ensures
            r.method == Method::Delete,
            r.url@ == item_url(self.url@, id) + seq!['/'],
            r.data is None,
            r.expected_status == NO_CONTENT,
    {
        delete_item(self.url.as_str(), id)
    }

    /// `GET <url>/import/`: imports flavors from OpenStack.
    pub fn import(&self) -> (r: Request<NoBody>)
        ensures
            r.method == Method::Get,
            r.url@ == self.url@ + "/import/"@,
            r.data is None,
            r.expected_status == OK,
    {
        get_suffix(self.url.as_str(), "/import/")
    }

    /// A usage report on `<url>/usage/`, without scope yet.
    pub fn usage(&self) -> (r: FlavorUsageRequest)
        ensures
            r.url@ == self.url@ + "/usage/"@,
            r.user is None && r.project is None && !r.all && !r.aggregate,
    {
        let url = join(self.url.as_str(), "/usage/");
        FlavorUsageRequest::new(url.as_str())
    }
}

/// The query of a flavor listing holds exactly the filters set, one pair each, in field order.
pub proof fn lemma_flavorlistparams_query(p: FlavorListParams)
    ensures
        p.pairs().len() == crate::common::present(p.all) + crate::common::present(p.group),
        p.all matches Some(v) ==> p.pairs()[0] == ("all"@, crate::common::bool_text(v)),
        p.group matches Some(v) ==> p.pairs()[crate::common::present(p.all)] == ("flavorgroup"@, crate::text::dec(v as nat)),
{
}

} // verus!
