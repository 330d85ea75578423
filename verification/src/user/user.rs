//! Users: listing, reading, creating, changing and deleting them, and one's own user.
use crate::common::{
    bare, copy_opt_string, format_id_name, id_name_text, item_url, join, join_id, join_id_slash,
    join_slash, opt_bool_pair, opt_u32_pair, pairs_view, push_bool, push_u32, url_with_query,
    with_data, with_query, Method, NoBody, Request, CREATED, NO_CONTENT, OK,
};
use crate::text::{before_last, prefix_before_last};
use crate::user::project::ProjectMinimal;
use vstd::prelude::*;

verus! {

/// A user as the API lists it.
#[derive(Debug, Clone)]
pub struct User {
    pub id: u32,
    pub name: String,
    pub openstack_id: String,
    pub project: u32,
    pub project_name: String,
    pub role: u32,
    pub is_staff: bool,
    pub is_active: bool,
}

impl User {
    /// `User(id=<id>, name=<name>`, as the user shows itself.
    pub fn to_string(&self) -> (r: String)
        ensures
            r@ == id_name_text("User(id="@, self.id, self.name@, ""@),
    {
        format_id_name("User(id=", self.id, self.name.as_str(), "")
    }
}

/// A user by id and name only.
#[derive(Debug, Clone)]
pub struct UserMinimal {
    pub id: u32,
    pub name: String,
}

impl UserMinimal {
    /// `User(id=<id>, name=<name>`.
    pub fn to_string(&self) -> (r: String)
        ensures
            r@ == id_name_text("User(id="@, self.id, self.name@, ""@),
    {
        format_id_name("User(id=", self.id, self.name.as_str(), "")
    }
}

/// A user with its project spelled out.
#[derive(Debug, Clone)]
pub struct UserDetailed {
    pub id: u32,
    pub name: String,
    pub openstack_id: String,
    pub project: ProjectMinimal,
    pub project_name: String,
    pub role: u32,
    pub is_staff: bool,
    pub is_active: bool,
}

/// A user as the API answers its creation.
#[derive(Debug, Clone)]
pub struct UserCreated {
    pub id: u32,
    pub name: String,
    pub openstack_id: String,
    pub project: u32,
    pub project_name: String,
    pub role: u32,
    pub is_staff: bool,
    pub is_active: bool,
}

/// The filters of a user listing.
#[derive(Debug, Clone, Copy, PartialEq, Eq, Structural)]
pub struct UserListParams {
    pub all: Option<bool>,
    pub project: Option<u32>,
}

impl UserListParams {
    /// The query pairs, in field order, without absent fields.
    pub open spec fn pairs(self) -> Seq<(Seq<char>, Seq<char>)> {
        opt_bool_pair("all"@, self.all) + opt_u32_pair("project"@, self.project)
    }

    pub fn to_pairs(&self) -> (r: Vec<(String, String)>)
        ensures
            pairs_view(r@) == self.pairs(),
    {
        let mut v: Vec<(String, String)> = Vec::new();
        assert(pairs_view(v@) =~= Seq::empty());
        push_bool(&mut v, "all", self.all);
        push_u32(&mut v, "project", self.project);
        assert(pairs_view(v@) =~= self.pairs());
        v
    }
}

/// A user listing to send.
pub struct UserListRequest {
    pub url: String,
    pub params: UserListParams,
}

impl UserListRequest {
    pub fn new(url: &str) -> (r: Self)
        ensures
            r.url@ == url@,
            r.params == (UserListParams { all: None, project: None }),
    {
        UserListRequest { url: url.to_owned(), params: UserListParams { all: None, project: None } }
    }

    /// `GET` of the listing URL with the filters as query.
    pub fn send(&self) -> (r: Request<NoBody>)
        ensures
            r.method == Method::Get,
            r.url@ == with_query(self.url@, self.params.pairs()),
            r.data is None,
            r.expected_status == OK,
    {
        let pairs = self.params.to_pairs();
        bare(Method::Get, url_with_query(self.url.as_str(), &pairs), OK)
    }

    /// Lists all users.
    pub fn all(&mut self) -> (r: &mut Self)
        ensures
            r.url == old(self).url,
            r.params == (UserListParams { all: Some(true), ..old(self).params }),
            *final(self) == *final(r),
    {
        self.params.all = Some(true);
        self
    }

    /// Lists the users of one project.
    pub fn project(&mut self, project: u32) -> (r: &mut Self)
        ensures
            r.url == old(self).url,
            r.params == (UserListParams { project: Some(project), ..old(self).params }),
            *final(self) == *final(r),
    {
        self.params.project = Some(project);
        self
    }
}

/// The body of a user creation.
#[derive(Debug)]
pub struct UserCreateData {
    pub name: String,
    pub openstack_id: String,
    pub project: u32,
    pub role: Option<u32>,
    pub is_staff: Option<bool>,
    pub is_active: Option<bool>,
}

impl UserCreateData {
    pub fn new(name: String, openstack_id: String, project: u32) -> (r: Self)
        ensures
            r == (UserCreateData {
                name,
                openstack_id,
                project,
                role: None,
                is_staff: None,
                is_active: None,
            }),
    {
        UserCreateData { name, openstack_id, project, role: None, is_staff: None, is_active: None }
    }

    pub fn duplicate(&self) -> (r: Self)
        ensures
            r == *self,
    {
        UserCreateData {
            name: self.name.clone(),
            openstack_id: self.openstack_id.clone(),
            project: self.project,
            role: self.role,
            is_staff: self.is_staff,
            is_active: self.is_active,
        }
    }
}

/// A user creation to send.
pub struct UserCreateRequest {
    pub url: String,
    pub data: UserCreateData,
}

impl UserCreateRequest {
    pub fn new(url: &str, name: String, openstack_id: String, project: u32) -> (r: Self)
        ensures
            r.url@ == url@,
            r.data == (UserCreateData {
                name,
                openstack_id,
                project,
                role: None,
                is_staff: None,
                is_active: None,
            }),
    {
        UserCreateRequest {
            url: url.to_owned(),
            data: UserCreateData::new(name, openstack_id, project),
        }
    }

    pub fn role(&mut self, role: u32) -> (r: &mut Self)
        ensures
            r.url == old(self).url,
            r.data == (UserCreateData { role: Some(role), ..old(self).data }),
            *final(self) == *final(r),
    {
        self.data.role = Some(role);
        self
    }

    /// Marks the new user as staff.
    pub fn staff(&mut self) -> (r: &mut Self)
        ensures
            r.url == old(self).url,
            r.data == (UserCreateData { is_staff: Some(true), ..old(self).data }),
            *final(self) == *final(r),
    {
        self.data.is_staff = Some(true);
        self
    }

    /// Marks the new user as inactive.
    pub fn inactive(&mut self) -> (r: &mut Self)
        ensures
            r.url == old(self).url,
            r.data == (UserCreateData { is_active: Some(false), ..old(self).data }),
            *final(self) == *final(r),
    {
        self.data.is_active = Some(false);
        self
    }

    /// `POST` of the data, answered with `201 Created`.
    pub fn send(&self) -> (r: Request<UserCreateData>)
        ensures
            r.method == Method::Post,
            r.url@ == self.url@,
            r.data == Some(self.data),
            r.expected_status == CREATED,
    {
        with_data(Method::Post, self.url.clone(), self.data.duplicate(), CREATED)
    }
}

/// The body of a user change: its id and the fields to change.
#[derive(Debug)]
pub struct UserModifyData {
    pub id: u32,
    pub name: Option<String>,
    pub openstack_id: Option<String>,
    pub project: Option<u32>,
    pub role: Option<u32>,
    pub is_staff: Option<bool>,
    pub is_active: Option<bool>,
}

impl UserModifyData {
    pub fn new(id: u32) -> (r: Self)
        ensures
            r == (UserModifyData {
                id,
                name: None,
                openstack_id: None,
                project: None,
                role: None,
                is_staff: None,
                is_active: None,
            }),
    {
        UserModifyData {
            id,
            name: None,
            openstack_id: None,
            project: None,
            role: None,
            is_staff: None,
            is_active: None,
        }
    }

    pub fn duplicate(&self) -> (r: Self)
        ensures
            r == *self,
    {
        UserModifyData {
            id: self.id,
            name: copy_opt_string(&self.name),
            openstack_id: copy_opt_string(&self.openstack_id),
            project: self.project,
            role: self.role,
            is_staff: self.is_staff,
            is_active: self.is_active,
        }
    }
}

/// A user change to send.
pub struct UserModifyRequest {
    pub url: String,
    pub data: UserModifyData,
}

impl UserModifyRequest {
    pub fn new(url: &str, id: u32) -> (r: Self)
        ensures
            r.url@ == url@,
            r.data == (UserModifyData {
                id,
                name: None,
                openstack_id: None,
                project: None,
                role: None,
                is_staff: None,
                is_active: None,
            }),
    {
        UserModifyRequest { url: url.to_owned(), data: UserModifyData::new(id) }
    }

    pub fn name(&mut self, name: String) -> (r: &mut Self)
        ensures
            r.url == old(self).url,
            r.data == (UserModifyData { name: Some(name), ..old(self).data }),
            *final(self) == *final(r),
    {
        self.data.name = Some(name);
        self
    }

    pub fn openstack_id(&mut self, openstack_id: String) -> (r: &mut Self)
        ensures
            r.url == old(self).url,
            r.data == (UserModifyData { openstack_id: Some(openstack_id), ..old(self).data }),
            *final(self) == *final(r),
    {
        self.data.openstack_id = Some(openstack_id);
        self
    }

    pub fn project(&mut self, project: u32) -> (r: &mut Self)
        ensures
            r.url == old(self).url,
            r.data == (UserModifyData { project: Some(project), ..old(self).data }),
            *final(self) == *final(r),
    {
        self.data.project = Some(project);
        self
    }

    pub fn role(&mut self, role: u32) -> (r: &mut Self)
        ensures
            r.url == old(self).url,
            r.data == (UserModifyData { role: Some(role), ..old(self).data }),
            *final(self) == *final(r),
    {
        self.data.role = Some(role);
        self
    }

    pub fn is_staff(&mut self, is_staff: bool) -> (r: &mut Self)
        ensures
            r.url == old(self).url,
            r.data == (UserModifyData { is_staff: Some(is_staff), ..old(self).data }),
            *final(self) == *final(r),
    {
        self.data.is_staff = Some(is_staff);
        self
    }

    pub fn is_active(&mut self, is_active: bool) -> (r: &mut Self)
        ensures
            r.url == old(self).url,
            r.data == (UserModifyData { is_active: Some(is_active), ..old(self).data }),
            *final(self) == *final(r),
    {
        self.data.is_active = Some(is_active);
        self
    }

    /// `PATCH` of the data, answered with `200 OK`.
    pub fn send(&self) -> (r: Request<UserModifyData>)
        ensures
            r.method == Method::Patch,
            r.url@ == self.url@,
            r.data == Some(self.data),
            r.expected_status == OK,
    {
        with_data(Method::Patch, self.url.clone(), self.data.duplicate(), OK)
    }
}

/// The API root a collection URL sits in: everything before its last `/`, or the whole
/// URL when it has none.
pub open spec fn parent_url(url: Seq<char>) -> Seq<char> {
    match before_last(url, '/') {
        Some(p) => p,
        None => url,
    }
}

/// The user endpoints under `/user/users`.
pub struct UserApi {
    pub url: String,
}

impl UserApi {
    pub fn new(base_url: &str) -> (r: UserApi)
        ensures
            r.url@ == base_url@ + "/user/users"@,
    {
        UserApi { url: join(base_url, "/user/users") }
    }

    /// A listing of the users, without filters yet.
    pub fn list(&self) -> (r: UserListRequest)
        ensures
            r.url@ == self.url@,
            r.params == (UserListParams { all: None, project: None }),
    {
        UserListRequest::new(self.url.as_str())
    }

    /// `GET <url>/<id>`.
    pub fn get(&self, id: u32) -> (r: Request<NoBody>)
        ensures
            r.method == Method::Get,
            r.url@ == item_url(self.url@, id),
            r.data is None,
            r.expected_status == OK,
    {
        bare(Method::Get, join_id(self.url.as_str(), id), OK)
    }

    /// A creation, sent to `<url>/`.
    pub fn create(&self, name: String, openstack_id: String, project: u32) -> (r: UserCreateRequest)
        ensures
            r.url@ == self.url@ + seq!['/'],
            r.data == (UserCreateData {
                name,
                openstack_id,
                project,
                role: None,
                is_staff: None,
                is_active: None,
            }),
    {
        let url = join_slash(self.url.as_str());
        UserCreateRequest::new(url.as_str(), name, openstack_id, project)
    }

    /// A change, sent to `<url>/<id>/`.
    pub fn modify(&self, id: u32) -> (r: UserModifyRequest)
        ensures
            r.url@ == item_url(self.url@, id) + seq!['/'],
            r.data == (UserModifyData {
                id,
                name: None,
                openstack_id: None,
                project: None,
                role: None,
                is_staff: None,
                is_active: None,
            }),
    {
        let url = join_id_slash(self.url.as_str(), id);
        UserModifyRequest::new(url.as_str(), id)
    }

    /// `DELETE <url>/<id>/`, answered with `204 No Content`.
    pub fn delete(&self, id: u32) -> (r: Request<NoBody>)
        ensures
            r.method == Method::Delete,
            r.url@ == item_url(self.url@, id) + seq!['/'],
            r.data is None,
            r.expected_status == NO_CONTENT,
    {
        bare(Method::Delete, join_id_slash(self.url.as_str(), id), NO_CONTENT)
    }

    fn parent(&self) -> (r: String)
        ensures
            r@ == parent_url(self.url@),
    {
        match prefix_before_last(self.url.as_str(), '/') {
            Some(p) => p,
            None => self.url.clone(),
        }
    }

    /// `GET` of `/me` beside the user collection: one's own user.
    pub fn me(&self) -> (r: Request<NoBody>)
        ensures
            r.method == Method::Get,
            r.url@ == parent_url(self.url@) + "/me"@,
            r.data is None,
            r.expected_status == OK,
    {
        let p = self.parent();
        bare(Method::Get, join(p.as_str(), "/me"), OK)
    }

    /// `GET` of `/import/` beside the user collection: imports users from OpenStack.
    pub fn import(&self) -> (r: Request<NoBody>)
        ensures
            r.method == Method::Get,
            r.url@ == parent_url(self.url@) + "/import/"@,
            r.data is None,
            r.expected_status == OK,
    {
        let p = self.parent();
        bare(Method::Get, join(p.as_str(), "/import/"), OK)
    }
}

/// The query of a user listing holds exactly the filters set, one pair each, in field order.
pub proof fn lemma_userlistparams_query(p: UserListParams)
    ensures
        p.pairs().len() == crate::common::present(p.all) + crate::common::present(p.project),
        p.all matches Some(v) ==> p.pairs()[0] == ("all"@, crate::common::bool_text(v)),
        p.project matches Some(v) ==> p.pairs()[crate::common::present(p.all)] == ("project"@, crate::text::dec(v as nat)),
{
}

} // verus!
