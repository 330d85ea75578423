//! Server states: listing, reading, creating, changing, deleting and importing them.
use crate::common::{
    copy_opt_string, delete_item, get_item, get_suffix, get_with_query, item_url, join,
    join_id_slash, join_slash, opt_bool_pair, opt_text_pair, opt_u32_pair, opt_view, pairs_view,
    push_bool, push_text, push_u32, with_data, with_query, Method, NoBody, Request, CREATED,
    NO_CONTENT, OK,
};
use crate::datetime::DateTime;
use crate::text::{dec, u32_to_string};
use vstd::prelude::*;

verus! {

/// A state of a server over a period: its name, flavor, status and owner.
#[derive(Debug, Clone)]
pub struct ServerState {
    pub id: u32,
    pub begin: DateTime,
    pub end: Option<DateTime>,
    pub instance_id: String,
    pub instance_name: String,
    pub flavor: u32,
    pub flavor_name: String,
    pub status: String,
    pub user: u32,
    pub username: String,
}

impl ServerState {
    /// `ServerState(id=<id>)`.
    pub fn to_string(&self) -> (r: String)
        ensures
            r@ == "ServerState(id="@ + dec(self.id as nat) + ")"@,
    {
        let mut s = "ServerState(id=".to_owned();
        s.append(u32_to_string(self.id).as_str());
        s.append(")");
        s
    }
}

/// How many states an import created and ended.
#[derive(Debug, Clone, Copy)]
pub struct ServerStateImport {
    pub new_state_count: u32,
    pub end_state_count: u32,
}

/// The filters of a server state listing.
#[derive(Debug, Clone)]
pub struct ServerStateListParams {
    pub server: Option<String>,
    pub user: Option<u32>,
    pub project: Option<u32>,
    pub all: Option<bool>,
}

impl ServerStateListParams {
    /// The query pairs, in field order, without absent fields.
    pub open spec fn pairs(self) -> Seq<(Seq<char>, Seq<char>)> {
        opt_text_pair("server"@, opt_view(self.server)) + opt_u32_pair("user"@, self.user)
            + opt_u32_pair("project"@, self.project) + opt_bool_pair("all"@, self.all)
    }

    pub fn to_pairs(&self) -> (r: Vec<(String, String)>)
        ensures
            pairs_view(r@) == self.pairs(),
    {
        let mut v: Vec<(String, String)> = Vec::new();
        assert(pairs_view(v@) =~= Seq::empty());
        push_text(&mut v, "server", &self.server);
        push_u32(&mut v, "user", self.user);
        push_u32(&mut v, "project", self.project);
        push_bool(&mut v, "all", self.all);
        assert(pairs_view(v@) =~= self.pairs());
        v
    }
}

/// A server state listing to send.
pub struct ServerStateListRequest {
    pub url: String,
    pub params: ServerStateListParams,
}

impl ServerStateListRequest {
    pub fn new(url: &str) -> (r: Self)
        ensures
            r.url@ == url@,
            r.params == (ServerStateListParams { server: None, user: None, project: None, all: None }),
    {
        ServerStateListRequest {
            url: url.to_owned(),
            params: ServerStateListParams { server: None, user: None, project: None, all: None },
        }
    }

    /// `GET` of the listing URL with the filters as query.
    pub fn send(&self) -> (r: Request<NoBody>)
        ensures
            r.method == Method::Get,
            r.url@ == with_query(self.url@, self.params.pairs()),
            r.data is None,
            r.expected_status == OK,
    {
        let pairs = self.params.to_pairs();
        get_with_query(self.url.as_str(), &pairs)
    }

    pub fn server(&mut self, server: &str) -> (r: &mut Self)
        ensures
            r.url == old(self).url,
            r.params.server matches Some(s) && s@ == server@,
            r.params.user == old(self).params.user,
            r.params.project == old(self).params.project,
            r.params.all == old(self).params.all,
            *final(self) == *final(r),
    {
        self.params.server = Some(server.to_owned());
        self
    }

    pub fn user(&mut self, user: u32) -> (r: &mut Self)
        ensures
            r.url == old(self).url,
            r.params == (ServerStateListParams { user: Some(user), ..old(self).params }),
            *final(self) == *final(r),
    {
        self.params.user = Some(user);
        self
    }

    pub fn project(&mut self, project: u32) -> (r: &mut Self)
        ensures
            r.url == old(self).url,
            r.params == (ServerStateListParams { project: Some(project), ..old(self).params }),
            *final(self) == *final(r),
    {
        self.params.project = Some(project);
        self
    }

    pub fn all(&mut self) -> (r: &mut Self)
        ensures
            r.url == old(self).url,
            r.params == (ServerStateListParams { all: Some(true), ..old(self).params }),
            *final(self) == *final(r),
    {
        self.params.all = Some(true);
        self
    }
}

/// The body of a server state creation.
#[derive(Debug)]
pub struct ServerStateCreateData {
    pub begin: DateTime,
    pub end: Option<DateTime>,
    pub instance_id: String,
    pub instance_name: String,
    pub flavor: u32,
    pub status: String,
    pub user: u32,
}

impl ServerStateCreateData {
    pub fn new(
        begin: DateTime,
        instance_id: String,
        instance_name: String,
        flavor: u32,
        status: String,
        user: u32,
    ) -> (r: Self)
        ensures
            r == (ServerStateCreateData {
                begin,
                end: None,
                instance_id,
                instance_name,
                flavor,
                status,
                user,
            }),
    {
        ServerStateCreateData { begin, end: None, instance_id, instance_name, flavor, status, user }
    }

    pub fn duplicate(&self) -> (r: Self)
        ensures
            r == *self,
    {
        ServerStateCreateData {
            begin: self.begin,
            end: self.end,
            instance_id: self.instance_id.clone(),
            instance_name: self.instance_name.clone(),
            flavor: self.flavor,
            status: self.status.clone(),
            user: self.user,
        }
    }
}

/// A server state creation to send.
pub struct ServerStateCreateRequest {
    pub url: String,
    pub data: ServerStateCreateData,
}

impl ServerStateCreateRequest {
    pub fn new(
        url: &str,
        begin: DateTime,
        instance_id: String,
        instance_name: String,
        flavor: u32,
        status: String,
        user: u32,
    ) -> (r: Self)
        ensures
            r.url@ == url@,
            r.data == (ServerStateCreateData {
                begin,
                end: None,
                instance_id,
                instance_name,
                flavor,
                status,
                user,
            }),
    {
        ServerStateCreateRequest {
            url: url.to_owned(),
            data: ServerStateCreateData::new(begin, instance_id, instance_name, flavor, status, user),
        }
    }

    pub fn end(&mut self, end: DateTime) -> (r: &mut Self)
        ensures
            r.url == old(self).url,
            r.data == (ServerStateCreateData { end: Some(end), ..old(self).data }),
            *final(self) == *final(r),
    {
        self.data.end = Some(end);
        self
    }

    /// `POST` of the data, answered with `201 Created`.
    pub fn send(&self) -> (r: Request<ServerStateCreateData>)
        ensures
            r.method == Method::Post,
            r.url@ == self.url@,
            r.data == Some(self.data),
            r.expected_status == CREATED,
    {
        with_data(Method::Post, self.url.clone(), self.data.duplicate(), CREATED)
    }
}

/// The body of a server state change: its id and the fields to change.
#[derive(Debug)]
pub struct ServerStateModifyData {
    pub id: u32,
    pub begin: Option<DateTime>,
    pub end: Option<DateTime>,
    pub instance_id: Option<String>,
    pub instance_name: Option<String>,
    pub flavor: Option<u32>,
    pub status: Option<String>,
    pub user: Option<u32>,
}

impl ServerStateModifyData {
    pub fn new(id: u32) -> (r: Self)
        ensures
            r == (ServerStateModifyData {
                id,
                begin: None,
                end: None,
                instance_id: None,
                instance_name: None,
                flavor: None,
                status: None,
                user: None,
            }),
    {
        ServerStateModifyData {
            id,
            begin: None,
            end: None,
            instance_id: None,
            instance_name: None,
            flavor: None,
            status: None,
            user: None,
        }
    }

    pub fn duplicate(&self) -> (r: Self)
        ensures
            r == *self,
    {
        ServerStateModifyData {
            id: self.id,
            begin: self.begin,
            end: self.end,
            instance_id: copy_opt_string(&self.instance_id),
            instance_name: copy_opt_string(&self.instance_name),
            flavor: self.flavor,
            status: copy_opt_string(&self.status),
            user: self.user,
        }
    }
}

/// A server state change to send.
pub struct ServerStateModifyRequest {
    pub url: String,
    pub data: ServerStateModifyData,
}

impl ServerStateModifyRequest {
    pub fn new(url: &str, id: u32) -> (r: Self)
        ensures
            r.url@ == url@,
            r.data == (ServerStateModifyData {
                id,
                begin: None,
                end: None,
                instance_id: None,
                instance_name: None,
                flavor: None,
                status: None,
                user: None,
            }),
    {
        ServerStateModifyRequest { url: url.to_owned(), data: ServerStateModifyData::new(id) }
    }

    pub fn begin(&mut self, begin: DateTime) -> (r: &mut Self)
        ensures
            r.url == old(self).url,
            r.data == (ServerStateModifyData { begin: Some(begin), ..old(self).data }),
            *final(self) == *final(r),
    {
        self.data.begin = Some(begin);
        self
    }

    pub fn end(&mut self, end: DateTime) -> (r: &mut Self)
        ensures
            r.url == old(self).url,
            r.data == (ServerStateModifyData { end: Some(end), ..old(self).data }),
            *final(self) == *final(r),
    {
        self.data.end = Some(end);
        self
    }

    pub fn instance_id(&mut self, instance_id: String) -> (r: &mut Self)
        ensures
            r.url == old(self).url,
            r.data == (ServerStateModifyData { instance_id: Some(instance_id), ..old(self).data }),
            *final(self) == *final(r),
    {
        self.data.instance_id = Some(instance_id);
        self
    }

    pub fn instance_name(&mut self, instance_name: String) -> (r: &mut Self)
        ensures
            r.url == old(self).url,
            r.data == (ServerStateModifyData { instance_name: Some(instance_name), ..old(self).data }),
            *final(self) == *final(r),
    {
        self.data.instance_name = Some(instance_name);
        self
    }

    pub fn flavor(&mut self, flavor: u32) -> (r: &mut Self)
        ensures
            r.url == old(self).url,
            r.data == (ServerStateModifyData { flavor: Some(flavor), ..old(self).data }),
            *final(self) == *final(r),
    {
        self.data.flavor = Some(flavor);
        self
    }

    pub fn status(&mut self, status: String) -> (r: &mut Self)
        ensures
            r.url == old(self).url,
            r.data == (ServerStateModifyData { status: Some(status), ..old(self).data }),
            *final(self) == *final(r),
    {
        self.data.status = Some(status);
        self
    }

    pub fn user(&mut self, user: u32) -> (r: &mut Self)
        ensures
            r.url == old(self).url,
            r.data == (ServerStateModifyData { user: Some(user), ..old(self).data }),
            *final(self) == *final(r),
    {
        self.data.user = Some(user);
        self
    }

    /// `PATCH` of the data, answered with `200 OK`.
    pub fn send(&self) -> (r: Request<ServerStateModifyData>)
        ensures
            r.method == Method::Patch,
            r.url@ == self.url@,
            r.data == Some(self.data),
            r.expected_status == OK,
    {
        with_data(Method::Patch, self.url.clone(), self.data.duplicate(), OK)
    }
}

/// The server state endpoints under `/accounting/serverstates`.
pub struct ServerStateApi {
    pub url: String,
}

impl ServerStateApi {
    pub fn new(base_url: &str) -> (r: ServerStateApi)
        ensures
            r.url@ == base_url@ + "/accounting/serverstates"@,
    {
        ServerStateApi { url: join(base_url, "/accounting/serverstates") }
    }

    pub fn list(&self) -> (r: ServerStateListRequest)
        ensures
            r.url@ == self.url@,
            r.params == (ServerStateListParams { server: None, user: None, project: None, all: None }),
    {
        ServerStateListRequest::new(self.url.as_str())
    }

    /// `GET <url>/<id>`.
    pub fn get(&self, id: u32) -> (r: Request<NoBody>)
        ensures
            r.method == Method::Get,
            r.url@ == item_url(self.url@, id),
            r.data is None,
            r.expected_status == OK,
    {
        get_item(self.url.as_str(), id)
    }

    /// A creation, sent to `<url>/`.
    pub fn create(
        &self,
        begin: DateTime,
        instance_id: String,
        instance_name: String,
        flavor: u32,
        status: String,
        user: u32,
    ) -> (r: ServerStateCreateRequest)
        ensures
            r.url@ == self.url@ + seq!['/'],
            r.data == (ServerStateCreateData {
                begin,
                end: None,
                instance_id,
                instance_name,
                flavor,
                status,
                user,
            }),
    {
        let url = join_slash(self.url.as_str());
        ServerStateCreateRequest::new(url.as_str(), begin, instance_id, instance_name, flavor, status, user)
    }

    /// A change, sent to `<url>/<id>/`.
    pub fn modify(&self, id: u32) -> (r: ServerStateModifyRequest)
        ensures
            r.url@ == item_url(self.url@, id) + seq!['/'],
            r.data == (ServerStateModifyData {
                id,
                begin: None,
                end: None,
                instance_id: None,
                instance_name: None,
                flavor: None,
                status: None,
                user: None,
            }),
    {
        let url = join_id_slash(self.url.as_str(), id);
        ServerStateModifyRequest::new(url.as_str(), id)
    }

    /// `DELETE <url>/<id>/`, answered with `204 No Content`.
    pub fn delete(&self, id: u32) -> (r: Request<NoBody>)
        ensures
            r.method == Method::Delete,
            r.url@ == item_url(self.url@, id) + seq!['/'],
            r.data is None,
            r.expected_status == NO_CONTENT,
    {
        delete_item(self.url.as_str(), id)
    }

    /// `GET <url>/import/`: imports server states from OpenStack.
    pub fn import(&self) -> (r: Request<NoBody>)
        ensures
            r.method == Method::Get,
            r.url@ == self.url@ + "/import/"@,
            r.data is None,
            r.expected_status == OK,
    {
        get_suffix(self.url.as_str(), "/import/")
    }
}

/// The query of a server state listing holds exactly the filters set, one pair each, in field order.
pub proof fn lemma_serverstatelistparams_query(p: ServerStateListParams)
    ensures
        p.pairs().len() == crate::common::present(p.server) + crate::common::present(p.user) + crate::common::present(p.project) + crate::common::present(p.all),
        p.server matches Some(v) ==> p.pairs()[0] == ("server"@, v@),
        p.user matches Some(v) ==> p.pairs()[crate::common::present(p.server)] == ("user"@, crate::text::dec(v as nat)),
        p.project matches Some(v) ==> p.pairs()[crate::common::present(p.server) + crate::common::present(p.user)] == ("project"@, crate::text::dec(v as nat)),
        p.all matches Some(v) ==> p.pairs()[crate::common::present(p.server) + crate::common::present(p.user) + crate::common::present(p.project)] == ("all"@, crate::common::bool_text(v)),
{
}

} // verus!
