//! Flavor groups: listing, reading, creating, changing, deleting and initializing them,
//! and their usage.
use crate::common::{
    copy_opt_string, delete_item, format_id_name, get_item, get_suffix, get_with_params,
    id_name_text, item_url, join, join_id_slash, join_slash, pairs_view, planned_get, push_pair,
    with_data, ApiError, Method, NoBody, Request, CREATED, NO_CONTENT, OK,
};
use crate::resources::flavor::FlavorMinimal;
use crate::resources::{usage_pairs, usage_params};
use crate::user::project::ProjectMinimal;
use vstd::prelude::*;

verus! {

/// A flavor group as the API lists it, with the ids of its flavors.
#[derive(Debug, Clone)]
pub struct FlavorGroup {
    pub id: u32,
    pub name: String,
    pub flavors: Vec<u32>,
    pub project: u32,
}

impl FlavorGroup {
    /// `FlavorGroup(id=<id>, name=<name>)`.
    pub fn to_string(&self) -> (r: String)
        ensures
            r@ == id_name_text("FlavorGroup(id="@, self.id, self.name@, ")"@),
    {
        format_id_name("FlavorGroup(id=", self.id, self.name.as_str(), ")")
    }
}

/// A flavor group by id and name only.
#[derive(Debug, Clone)]
pub struct FlavorGroupMinimal {
    pub id: u32,
    pub name: String,
}

impl FlavorGroupMinimal {
    /// `FlavorGroup(id=<id>, name=<name>)`.
    pub fn to_string(&self) -> (r: String)
        ensures
            r@ == id_name_text("FlavorGroup(id="@, self.id, self.name@, ")"@),
    {
        format_id_name("FlavorGroup(id=", self.id, self.name.as_str(), ")")
    }
}

/// A flavor group with its flavors and project spelled out.
#[derive(Debug, Clone)]
pub struct FlavorGroupDetailed {
    pub id: u32,
    pub name: String,
    pub flavors: Vec<FlavorMinimal>,
    pub project: ProjectMinimal,
}

impl FlavorGroupDetailed {
    /// `FlavorGroup(id=<id>, name=<name>)`.
    pub fn to_string(&self) -> (r: String)
        ensures
            r@ == id_name_text("FlavorGroup(id="@, self.id, self.name@, ")"@),
    {
        format_id_name("FlavorGroup(id=", self.id, self.name.as_str(), ")")
    }
}

/// A flavor group as the API answers its creation.
#[derive(Debug, Clone)]
pub struct FlavorGroupCreated {
    pub id: u32,
    pub name: String,
    pub flavors: Vec<FlavorMinimal>,
    pub project: u32,
}

impl FlavorGroupCreated {
    /// `FlavorGroup(id=<id>, name=<name>)`.
    pub fn to_string(&self) -> (r: String)
        ensures
            r@ == id_name_text("FlavorGroup(id="@, self.id, self.name@, ")"@),
    {
        format_id_name("FlavorGroup(id=", self.id, self.name.as_str(), ")")
    }
}

/// What an initialization of flavor groups created.
#[derive(Debug, Clone, Copy)]
pub struct FlavorGroupInitialize {
    pub new_flavor_group_count: u32,
    pub new_flavor_count: u32,
}

/// The usage of one flavor group by one user.
#[derive(Debug, Clone)]
pub struct FlavorGroupUsage {
    pub user_id: u32,
    pub user_name: String,
    pub flavorgroup_id: u32,
    pub flavorgroup_name: String,
    pub usage: u32,
}

/// The usage of one flavor group, summed over users.
#[derive(Debug, Clone)]
pub struct FlavorGroupUsageAggregate {
    pub flavorgroup_id: u32,
    pub flavorgroup_name: String,
    pub usage: u32,
}

/// A flavor group listing to send.
pub struct FlavorGroupListRequest {
    pub url: String,
    pub all: bool,
}

/// The query of a flavor group listing: `all=1` when all groups are asked for.
pub open spec fn list_pairs(all: bool) -> Seq<(Seq<char>, Seq<char>)> {
    if all {
        seq![("all"@, "1"@)]
    } else {
        Seq::empty()
    }
}

impl FlavorGroupListRequest {
    pub fn new(url: &str) -> (r: Self)
        ensures
            r.url@ == url@,
            !r.all,
    {
        FlavorGroupListRequest { url: url.to_owned(), all: false }
    }

    fn params(&self) -> (r: Vec<(String, String)>)
        ensures
            pairs_view(r@) == list_pairs(self.all),
    {
        let mut v: Vec<(String, String)> = Vec::new();
        assert(pairs_view(v@) =~= Seq::empty());
        if self.all {
            push_pair(&mut v, "all", "1".to_owned());
        }
        assert(pairs_view(v@) =~= list_pairs(self.all));
        v
    }

    /// `GET` of the listing URL, parsed, with the query appended.
    pub fn send(&self) -> (r: Result<Request<NoBody>, ApiError>)
        ensures
            planned_get(r, self.url@, list_pairs(self.all)),
    {
        get_with_params(self.url.as_str(), &self.params())
    }

    /// Lists all flavor groups.
    pub fn all(&mut self) -> (r: &mut Self)
        ensures
            r.url == old(self).url,
            r.all,
            *final(self) == *final(r),
    {
        self.all = true;
        self
    }
}

/// The body of a flavor group creation: its name and, at first, no flavors.
#[derive(Debug)]
pub struct FlavorGroupCreateData {
    pub name: String,
    pub flavors: Vec<u32>,
}

impl FlavorGroupCreateData {
    pub fn new(name: String) -> (r: Self)
        ensures
            r.name == name,
            r.flavors@ == Seq::<u32>::empty(),
    {
        FlavorGroupCreateData { name, flavors: Vec::new() }
    }

    pub fn duplicate(&self) -> (r: Self)
        ensures
            r.name == self.name,
            r.flavors@ == self.flavors@,
    {
        let mut flavors: Vec<u32> = Vec::new();
        let n = self.flavors.len();
        for i in 0..n
            invariant
                n == self.flavors@.len(),
                flavors@ == self.flavors@.subrange(0, i as int),
        {
            flavors.push(self.flavors[i]);
            assert(flavors@ =~= self.flavors@.subrange(0, i + 1));
        }
        assert(self.flavors@.subrange(0, n as int) =~= self.flavors@);
        FlavorGroupCreateData { name: self.name.clone(), flavors }
    }
}

/// A flavor group creation to send.
pub struct FlavorGroupCreateRequest {
    pub url: String,
    pub data: FlavorGroupCreateData,
}

impl FlavorGroupCreateRequest {
    pub fn new(url: &str, name: String) -> (r: Self)
        ensures
            r.url@ == url@,
            r.data.name == name,
            r.data.flavors@ == Seq::<u32>::empty(),
    {
        FlavorGroupCreateRequest { url: url.to_owned(), data: FlavorGroupCreateData::new(name) }
    }

    /// `POST` of the data, answered with `201 Created`.
    pub fn send(&self) -> (r: Request<FlavorGroupCreateData>)
        ensures
            r.method == Method::Post,
            r.url@ == self.url@,
            r.data matches Some(d) && d.name == self.data.name && d.flavors@ == self.data.flavors@,
            r.expected_status == CREATED,
    {
        with_data(Method::Post, self.url.clone(), self.data.duplicate(), CREATED)
    }
}

/// The body of a flavor group change: its id and the fields to change.
#[derive(Debug)]
pub struct FlavorGroupModifyData {
    pub id: u32,
    pub name: Option<String>,
    pub project: Option<u32>,
}

impl FlavorGroupModifyData {
    pub fn new(id: u32) -> (r: Self)
        ensures
            r == (FlavorGroupModifyData { id, name: None, project: None }),
    {
        FlavorGroupModifyData { id, name: None, project: None }
    }

    pub fn duplicate(&self) -> (r: Self)
        ensures
            r == *self,
    {
        FlavorGroupModifyData { id: self.id, name: copy_opt_string(&self.name), project: self.project }
    }
}

/// A flavor group change to send.
pub struct FlavorGroupModifyRequest {
    pub url: String,
    pub data: FlavorGroupModifyData,
}

impl FlavorGroupModifyRequest {
    pub fn new(url: &str, id: u32) -> (r: Self)
        ensures
            r.url@ == url@,
            r.data == (FlavorGroupModifyData { id, name: None, project: None }),
    {
        FlavorGroupModifyRequest { url: url.to_owned(), data: FlavorGroupModifyData::new(id) }
    }

    pub fn name(&mut self, name: String) -> (r: &mut Self)
        ensures
            r.url == old(self).url,
            r.data == (FlavorGroupModifyData { name: Some(name), ..old(self).data }),
            *final(self) == *final(r),
    {
        self.data.name = Some(name);
        self
    }

    pub fn project(&mut self, project: u32) -> (r: &mut Self)
        ensures
            r.url == old(self).url,
            r.data == (FlavorGroupModifyData { project: Some(project), ..old(self).data }),
            *final(self) == *final(r),
    {
        self.data.project = Some(project);
        self
    }

    /// `PATCH` of the data, answered with `200 OK`.
    pub fn send(&self) -> (r: Request<FlavorGroupModifyData>)
        ensures
            r.method == Method::Patch,
            r.url@ == self.url@,
            r.data == Some(self.data),
            r.expected_status == OK,
    {
        with_data(Method::Patch, self.url.clone(), self.data.duplicate(), OK)
    }
}

/// A report on flavor group usage to send.
pub struct FlavorGroupUsageRequest {
    pub url: String,
    pub user: Option<u32>,
    pub project: Option<u32>,
    pub all: bool,
    pub aggregate: bool,
}

impl FlavorGroupUsageRequest {
    pub fn new(url: &str) -> (r: Self)
        ensures
            r.url@ == url@,
            r.user is None && r.project is None && !r.all && !r.aggregate,
    {
        FlavorGroupUsageRequest { url: url.to_owned(), user: None, project: None, all: false, aggregate: false }
    }

    /// The query of this report.
    pub open spec fn pairs(self) -> Seq<(Seq<char>, Seq<char>)> {
        usage_pairs(self.user, self.project, self.all, self.aggregate)
    }

    pub fn params(&self) -> (r: Vec<(String, String)>)
        ensures
            pairs_view(r@) == self.pairs(),
    {
        usage_params(self.user, self.project, self.all, self.aggregate)
    }

    /// The per-group usage of a user.
    pub fn user(&mut self, user: u32) -> (r: Result<Request<NoBody>, ApiError>)
        ensures
            *final(self) == (FlavorGroupUsageRequest { user: Some(user), aggregate: false, ..*old(self) }),
            planned_get(r, final(self).url@, final(self).pairs()),
    {
        self.user = Some(user);
        self.aggregate = false;
        get_with_params(self.url.as_str(), &self.params())
    }

    /// The aggregated usage of a user.
    pub fn user_aggregate(&mut self, user: u32) -> (r: Result<Request<NoBody>, ApiError>)
        ensures
            *final(self) == (FlavorGroupUsageRequest { user: Some(user), aggregate: true, ..*old(self) }),
            planned_get(r, final(self).url@, final(self).pairs()),
    {
        self.user = Some(user);
        self.aggregate = true;
        get_with_params(self.url.as_str(), &self.params())
    }

    /// The per-group usage of a project.
    pub fn project(&mut self, project: u32) -> (r: Result<Request<NoBody>, ApiError>)
        ensures
            *final(self) == (FlavorGroupUsageRequest { project: Some(project), aggregate: false, ..*old(self) }),
            planned_get(r, final(self).url@, final(self).pairs()),
    {
        self.project = Some(project);
        self.aggregate = false;
        get_with_params(self.url.as_str(), &self.params())
    }

    /// The aggregated usage of a project.
    pub fn project_aggregate(&mut self, project: u32) -> (r: Result<Request<NoBody>, ApiError>)
        ensures
            *final(self) == (FlavorGroupUsageRequest { project: Some(project), aggregate: true, ..*old(self) }),
            planned_get(r, final(self).url@, final(self).pairs()),
    {
        self.project = Some(project);
        self.aggregate = true;
        get_with_params(self.url.as_str(), &self.params())
    }

    /// The per-group usage of the whole cloud.
    pub fn all(&mut self) -> (r: Result<Request<NoBody>, ApiError>)
        ensures
            *final(self) == (FlavorGroupUsageRequest { all: true, aggregate: false, ..*old(self) }),
            planned_get(r, final(self).url@, final(self).pairs()),
    {
        self.all = true;
        self.aggregate = false;
        get_with_params(self.url.as_str(), &self.params())
    }

    /// The aggregated usage of the whole cloud.
    pub fn all_aggregate(&mut self) -> (r: Result<Request<NoBody>, ApiError>)
        ensures
            *final(self) == (FlavorGroupUsageRequest { all: true, aggregate: true, ..*old(self) }),
            planned_get(r, final(self).url@, final(self).pairs()),
    {
        self.all = true;
        self.aggregate = true;
        get_with_params(self.url.as_str(), &self.params())
    }

    /// One's own per-group usage.
    pub fn mine(&mut self) -> (r: Result<Request<NoBody>, ApiError>)
        ensures
            *final(self) == (FlavorGroupUsageRequest { aggregate: false, ..*old(self) }),
            planned_get(r, final(self).url@, final(self).pairs()),
    {
        self.aggregate = false;
        get_with_params(self.url.as_str(), &self.params())
    }

    /// One's own aggregated usage.
    pub fn mine_aggregate(&mut self) -> (r: Result<Request<NoBody>, ApiError>)
        ensures
            *final(self) == (FlavorGroupUsageRequest { aggregate: true, ..*old(self) }),
            planned_get(r, final(self).url@, final(self).pairs()),
    {
        self.aggregate = true;
        get_with_params(self.url.as_str(), &self.params())
    }
}

/// The flavor group endpoints under `/resources/flavorgroups`.
pub struct FlavorGroupApi {
    pub url: String,
}

impl FlavorGroupApi {
    pub fn new(base_url: &str) -> (r: FlavorGroupApi)
        ensures
            r.url@ == base_url@ + "/resources/flavorgroups"@,
    {
        FlavorGroupApi { url: join(base_url, "/resources/flavorgroups") }
    }

    /// A listing of the flavor groups, of one's own by default.
    pub fn list(&self) -> (r: FlavorGroupListRequest)
        ensures
            r.url@ == self.url@,
            !r.all,
    {
        FlavorGroupListRequest::new(self.url.as_str())
    }

    /// `GET <url>/<id>`.
    pub fn get(&self, id: u32) -> (r: Request<NoBody>)
        ensures
            r.method == Method::Get,
            r.url@ == item_url(self.url@, id),
            r.data is None,
            r.expected_status == OK,
    {
        get_item(self.url.as_str(), id)
    }

    /// A creation, sent to `<url>/`.
    pub fn create(&self, name: String) -> (r: FlavorGroupCreateRequest)
        ensures
            r.url@ == self.url@ + seq!['/'],
            r.data.name == name,
            r.data.flavors@ == Seq::<u32>::empty(),
    {
        let url = join_slash(self.url.as_str());
        FlavorGroupCreateRequest::new(url.as_str(), name)
    }

    /// A change, sent to `<url>/<id>/`.
    pub fn modify(&self, id: u32) -> (r: FlavorGroupModifyRequest)
        ensures
            r.url@ == item_url(self.url@, id) + seq!['/'],
            r.data == (FlavorGroupModifyData { id, name: None, project: None }),
    {
        let url = join_id_slash(self.url.as_str(), id);
        FlavorGroupModifyRequest::new(url.as_str(), id)
    }

    /// `DELETE <url>/<id>/`, answered with `204 No Content`.
    pub fn delete(&self, id: u32) -> (r: Request<NoBody>)
        ensures
            r.method == Method::Delete,
            r.url@ == item_url(self.url@, id) + seq!['/'],
            r.data is None,
            r.expected_status == NO_CONTENT,
    {
        delete_item(self.url.as_str(), id)
    }

    /// `GET <url>/initialize/`: creates flavor groups from the flavors' names.
    pub fn initialize(&self) -> (r: Request<NoBody>)
        ensures
            r.method == Method::Get,
            r.url@ == self.url@ + "/initialize/"@,
            r.data is None,
            r.expected_status == OK,
    {
        get_suffix(self.url.as_str(), "/initialize/")
    }

    /// A usage report on `<url>/usage/`, without scope yet.
    pub fn usage(&self) -> (r: FlavorGroupUsageRequest)
        ensures
            r.url@ == self.url@ + "/usage/"@,
            r.user is None && r.project is None && !r.all && !r.aggregate,
    {
        let url = join(self.url.as_str(), "/usage/");
        FlavorGroupUsageRequest::new(url.as_str())
    }
}

/// A flavor group listing asks for `all=1` when all groups are wanted, else for nothing.
pub proof fn lemma_list_query(all: bool)
    ensures
        all ==> list_pairs(all) == seq![("all"@, "1"@)],
        !all ==> list_pairs(all).len() == 0,
{
}

} // verus!
