//! Projects: listing, reading, creating, changing and deleting them.
use crate::common::{
    bare, copy_opt_string, format_id_name, id_name_text, item_url, join, join_id, join_id_slash,
    join_slash, opt_bool_pair, opt_u32_pair, pairs_view, push_bool, push_u32, url_with_query,
    with_data, with_query, Method, NoBody, Request, CREATED, NO_CONTENT, OK,
};
use vstd::prelude::*;

verus! {

/// A project as the API lists it.
#[derive(Debug, Clone)]
pub struct Project {
    pub id: u32,
    pub name: String,
    pub openstack_id: String,
    pub user_class: u32,
}

impl Project {
    /// `Project(id=<id>, name=<name>`, as the project shows itself.
    pub fn to_string(&self) -> (r: String)
        ensures
            r@ == id_name_text("Project(id="@, self.id, self.name@, ""@),
    {
        format_id_name("Project(id=", self.id, self.name.as_str(), "")
    }
}

/// A project by id and name only.
#[derive(Debug, Clone)]
pub struct ProjectMinimal {
    pub id: u32,
    pub name: String,
}

/// The filters of a project listing.
#[derive(Debug, Clone, Copy, PartialEq, Eq, Structural)]
pub struct ProjectListParams {
    pub all: Option<bool>,
    pub userclass: Option<u32>,
}

impl ProjectListParams {
    /// The query pairs, in field order, without absent fields.
    pub open spec fn pairs(self) -> Seq<(Seq<char>, Seq<char>)> {
        opt_bool_pair("all"@, self.all) + opt_u32_pair("userclass"@, self.userclass)
    }

    pub fn to_pairs(&self) -> (r: Vec<(String, String)>)
        ensures
            pairs_view(r@) == self.pairs(),
    {
        let mut v: Vec<(String, String)> = Vec::new();
        assert(pairs_view(v@) =~= Seq::empty());
        push_bool(&mut v, "all", self.all);
        push_u32(&mut v, "userclass", self.userclass);
        assert(pairs_view(v@) =~= self.pairs());
        v
    }
}

/// A project listing to send.
pub struct ProjectListRequest {
    pub url: String,
    pub params: ProjectListParams,
}

impl ProjectListRequest {
    pub fn new(url: &str) -> (r: Self)
        ensures
            r.url@ == url@,
            r.params == (ProjectListParams { all: None, userclass: None }),
    {
        ProjectListRequest { url: url.to_owned(), params: ProjectListParams { all: None, userclass: None } }
    }

    /// `GET` of the listing URL with the filters as query.
    pub fn send(&self) -> (r: Request<NoBody>)
        ensures
            r.method == Method::Get,
            r.url@ == with_query(self.url@, self.params.pairs()),
            r.data is None,
            r.expected_status == OK,
    {
        let pairs = self.params.to_pairs();
        bare(Method::Get, url_with_query(self.url.as_str(), &pairs), OK)
    }

    /// Lists all projects.
    pub fn all(&mut self) -> (r: &mut Self)
        ensures
            r.url == old(self).url,
            r.params == (ProjectListParams { all: Some(true), ..old(self).params }),
            *final(self) == *final(r),
    {
        self.params.all = Some(true);
        self
    }

    /// Lists the projects of one user class.
    pub fn user_class(&mut self, userclass: u32) -> (r: &mut Self)
        ensures
            r.url == old(self).url,
            r.params == (ProjectListParams { userclass: Some(userclass), ..old(self).params }),
            *final(self) == *final(r),
    {
        self.params.userclass = Some(userclass);
        self
    }
}

/// The body of a project creation.
#[derive(Debug)]
pub struct ProjectCreateData {
    pub name: String,
    pub openstack_id: String,
    pub user_class: Option<u32>,
}

impl ProjectCreateData {
    pub fn new(name: String, openstack_id: String) -> (r: Self)
        ensures
            r == (ProjectCreateData { name, openstack_id, user_class: None }),
    {
        ProjectCreateData { name, openstack_id, user_class: None }
    }

    pub fn duplicate(&self) -> (r: Self)
        ensures
            r == *self,
    {
        ProjectCreateData {
            name: self.name.clone(),
            openstack_id: self.openstack_id.clone(),
            user_class: self.user_class,
        }
    }
}

/// A project creation to send.
pub struct ProjectCreateRequest {
    pub url: String,
    pub data: ProjectCreateData,
}

impl ProjectCreateRequest {
    pub fn new(url: &str, name: String, openstack_id: String) -> (r: Self)
        ensures
            r.url@ == url@,
            r.data == (ProjectCreateData { name, openstack_id, user_class: None }),
    {
        ProjectCreateRequest { url: url.to_owned(), data: ProjectCreateData::new(name, openstack_id) }
    }

    pub fn user_class(&mut self, user_class: u32) -> (r: &mut Self)
        ensures
            r.url == old(self).url,
            r.data == (ProjectCreateData { user_class: Some(user_class), ..old(self).data }),
            *final(self) == *final(r),
    {
        self.data.user_class = Some(user_class);
        self
    }

    /// `POST` of the data, answered with `201 Created`.
    pub fn send(&self) -> (r: Request<ProjectCreateData>)
        ensures
            r.method == Method::Post,
            r.url@ == self.url@,
            r.data == Some(self.data),
            r.expected_status == CREATED,
    {
        with_data(Method::Post, self.url.clone(), self.data.duplicate(), CREATED)
    }
}

/// The body of a project change: its id and the fields to change.
#[derive(Debug)]
pub struct ProjectModifyData {
    pub id: u32,
    pub name: Option<String>,
    pub openstack_id: Option<String>,
    pub user_class: Option<u32>,
}

impl ProjectModifyData {
    pub fn new(id: u32) -> (r: Self)
        ensures
            r == (ProjectModifyData { id, name: None, openstack_id: None, user_class: None }),
    {
        ProjectModifyData { id, name: None, openstack_id: None, user_class: None }
    }

    pub fn duplicate(&self) -> (r: Self)
        ensures
            r == *self,
    {
        ProjectModifyData {
            id: self.id,
            name: copy_opt_string(&self.name),
            openstack_id: copy_opt_string(&self.openstack_id),
            user_class: self.user_class,
        }
    }
}

/// A project change to send.
pub struct ProjectModifyRequest {
    pub url: String,
    pub data: ProjectModifyData,
}

impl ProjectModifyRequest {
    pub fn new(url: &str, id: u32) -> (r: Self)
        ensures
            r.url@ == url@,
            r.data == (ProjectModifyData { id, name: None, openstack_id: None, user_class: None }),
    {
        ProjectModifyRequest { url: url.to_owned(), data: ProjectModifyData::new(id) }
    }

    pub fn name(&mut self, name: String) -> (r: &mut Self)
        ensures
            r.url == old(self).url,
            r.data == (ProjectModifyData { name: Some(name), ..old(self).data }),
            *final(self) == *final(r),
    {
        self.data.name = Some(name);
        self
    }

    pub fn openstack_id(&mut self, openstack_id: String) -> (r: &mut Self)
        ensures
            r.url == old(self).url,
            r.data == (ProjectModifyData { openstack_id: Some(openstack_id), ..old(self).data }),
            *final(self) == *final(r),
    {
        self.data.openstack_id = Some(openstack_id);
        self
    }

    pub fn user_class(&mut self, user_class: u32) -> (r: &mut Self)
        ensures
            r.url == old(self).url,
            r.data == (ProjectModifyData { user_class: Some(user_class), ..old(self).data }),
            *final(self) == *final(r),
    {
        self.data.user_class = Some(user_class);
        self
    }

    /// `PATCH` of the data, answered with `200 OK`.
    pub fn send(&self) -> (r: Request<ProjectModifyData>)
        ensures
            r.method == Method::Patch,
            r.url@ == self.url@,
            r.data == Some(self.data),
            r.expected_status == OK,
    {
        with_data(Method::Patch, self.url.clone(), self.data.duplicate(), OK)
    }
}

/// The project endpoints under `/user/projects`.
pub struct ProjectApi {
    pub url: String,
}

impl ProjectApi {
    pub fn new(base_url: &str) -> (r: ProjectApi)
        ensures
            r.url@ == base_url@ + "/user/projects"@,
    {
        ProjectApi { url: join(base_url, "/user/projects") }
    }

    /// A listing of the projects, without filters yet.
    pub fn list(&self) -> (r: ProjectListRequest)
        ensures
            r.url@ == self.url@,
            r.params == (ProjectListParams { all: None, userclass: None }),
    {
        ProjectListRequest::new(self.url.as_str())
    }

    /// `GET <url>/<id>`.
    pub fn get(&self, id: u32) -> (r: Request<NoBody>)
        ensures
            r.method == Method::Get,
            r.url@ == item_url(self.url@, id),
            r.data is None,
            r.expected_status == OK,
    {
        bare(Method::Get, join_id(self.url.as_str(), id), OK)
    }

    /// A creation, sent to `<url>/`.
    pub fn create(&self, name: String, openstack_id: String) -> (r: ProjectCreateRequest)
        ensures
            r.url@ == self.url@ + seq!['/'],
            r.data == (ProjectCreateData { name, openstack_id, user_class: None }),
    {
        let url = join_slash(self.url.as_str());
        ProjectCreateRequest::new(url.as_str(), name, openstack_id)
    }

    /// A change, sent to `<url>/<id>/`.
    pub fn modify(&self, id: u32) -> (r: ProjectModifyRequest)
        ensures
            r.url@ == item_url(self.url@, id) + seq!['/'],
            r.data == (ProjectModifyData { id, name: None, openstack_id: None, user_class: None }),
    {
        let url = join_id_slash(self.url.as_str(), id);
        ProjectModifyRequest::new(url.as_str(), id)
    }

    /// `DELETE <url>/<id>/`, answered with `204 No Content`.
    pub fn delete(&self, id: u32) -> (r: Request<NoBody>)
        ensures
            r.method == Method::Delete,
            r.url@ == item_url(self.url@, id) + seq!['/'],
            r.data is None,
            r.expected_status == NO_CONTENT,
    {
        bare(Method::Delete, join_id_slash(self.url.as_str(), id), NO_CONTENT)
    }
}

/// The query of a project listing holds exactly the filters set, one pair each, in field order.
pub proof fn lemma_projectlistparams_query(p: ProjectListParams)
    ensures
        p.pairs().len() == crate::common::present(p.all) + crate::common::present(p.userclass),
        p.all matches Some(v) ==> p.pairs()[0] == ("all"@, crate::common::bool_text(v)),
        p.userclass matches Some(v) ==> p.pairs()[crate::common::present(p.all)] == ("userclass"@, crate::text::dec(v as nat)),
{
}

} // verus!
