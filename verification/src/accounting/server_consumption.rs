//! The consumption of servers over a period, for a server, user, project or everything.
use crate::common::{
    get_with_params, join, opt_text_pair, opt_u32_pair, opt_view, pairs_view, planned_get,
    push_pair, push_text, push_u32, ApiError, NoBody, Request,
};
use crate::datetime::DateTime;
use crate::text::dec;
use vstd::prelude::*;

verus! {

/// A consumption report to ask for.
#[derive(Debug, Clone)]
pub struct ServerConsumptionRequest {
    pub url: String,
    pub begin: Option<DateTime>,
    pub end: Option<DateTime>,
    pub server: Option<String>,
    pub user: Option<u32>,
    pub project: Option<u32>,
    pub all: bool,
    pub detail: bool,
}

impl ServerConsumptionRequest {
    pub fn new(url: &str) -> (r: Self)
        ensures
            r.url@ == url@,
            r.begin is None && r.end is None && r.server is None && r.user is None,
            r.project is None && !r.all && !r.detail,
    {
        ServerConsumptionRequest {
            url: url.to_owned(),
            begin: None,
            end: None,
            server: None,
            user: None,
            project: None,
            all: false,
            detail: false,
        }
    }

    /// The query: begin and end in RFC 3339, the most specific scope given (a server,
    /// else a user, else a project, else everything), then whether to detail.
    pub open spec fn pairs(self) -> Seq<(Seq<char>, Seq<char>)> {
        (match self.begin {
            Some(b) => seq![("begin"@, b.rfc3339())],
            None => Seq::empty(),
        }) + (match self.end {
            Some(e) => seq![("end"@, e.rfc3339())],
            None => Seq::empty(),
        }) + (if self.server is Some {
            opt_text_pair("server"@, opt_view(self.server))
        } else if self.user is Some {
            opt_u32_pair("user"@, self.user)
        } else if self.project is Some {
            opt_u32_pair("project"@, self.project)
        } else if self.all {
            seq![("all"@, "1"@)]
        } else {
            Seq::empty()
        }) + (if self.detail {
            seq![("detail"@, "1"@)]
        } else {
            Seq::empty()
        })
    }

    fn params(&self) -> (r: Vec<(String, String)>)
        ensures
            pairs_view(r@) == self.pairs(),
    {
        let mut v: Vec<(String, String)> = Vec::new();
        assert(pairs_view(v@) =~= Seq::empty());
        match &self.begin {
            Some(b) => push_pair(&mut v, "begin", b.to_rfc3339()),
            None => {},
        }
        match &self.end {
            Some(e) => push_pair(&mut v, "end", e.to_rfc3339()),
            None => {},
        }
        if self.server.is_some() {
            push_text(&mut v, "server", &self.server);
        } else if self.user.is_some() {
            push_u32(&mut v, "user", self.user);
        } else if self.project.is_some() {
            push_u32(&mut v, "project", self.project);
        } else if self.all {
            push_pair(&mut v, "all", "1".to_owned());
        }
        if self.detail {
            push_pair(&mut v, "detail", "1".to_owned());
        }
        assert(pairs_view(v@) =~= self.pairs());
        v
    }

    pub fn begin(&mut self, begin: DateTime) -> (r: &mut Self)
        ensures
            *r == (ServerConsumptionRequest { begin: Some(begin), ..*old(self) }),
            *final(self) == *final(r),
    {
        self.begin = Some(begin);
        self
    }

    pub fn end(&mut self, end: DateTime) -> (r: &mut Self)
        ensures
            *r == (ServerConsumptionRequest { end: Some(end), ..*old(self) }),
            *final(self) == *final(r),
    {
        self.end = Some(end);
        self
    }

    /// The consumption of one server.
    pub fn server(&mut self, server: &str) -> (r: Result<Request<NoBody>, ApiError>)
        ensures
            final(self).server matches Some(s) && s@ == server@,
            *final(self) == (ServerConsumptionRequest {
                server: final(self).server,
                detail: false,
                ..*old(self)
            }),
            planned_get(r, final(self).url@, final(self).pairs()),
    {
        self.server = Some(server.to_owned());
        self.detail = false;
        get_with_params(self.url.as_str(), &self.params())
    }

    /// The consumption of one server, in detail.
    pub fn server_detail(&mut self, server: &str) -> (r: Result<Request<NoBody>, ApiError>)
        ensures
            final(self).server matches Some(s) && s@ == server@,
            *final(self) == (ServerConsumptionRequest {
                server: final(self).server,
                detail: true,
                ..*old(self)
            }),
            planned_get(r, final(self).url@, final(self).pairs()),
    {
        self.server = Some(server.to_owned());
        self.detail = true;
        get_with_params(self.url.as_str(), &self.params())
    }

    /// The consumption of one user.
    pub fn user(&mut self, user: u32) -> (r: Result<Request<NoBody>, ApiError>)
        ensures
            *final(self) == (ServerConsumptionRequest { user: Some(user), detail: false, ..*old(self) }),
            planned_get(r, final(self).url@, final(self).pairs()),
    {
        self.user = Some(user);
        self.detail = false;
        get_with_params(self.url.as_str(), &self.params())
    }

    /// The consumption of one user, per server.
    pub fn user_detail(&mut self, user: u32) -> (r: Result<Request<NoBody>, ApiError>)
        ensures
            *final(self) == (ServerConsumptionRequest { user: Some(user), detail: true, ..*old(self) }),
            planned_get(r, final(self).url@, final(self).pairs()),
    {
        self.user = Some(user);
        self.detail = true;
        get_with_params(self.url.as_str(), &self.params())
    }

    /// The consumption of one project.
    pub fn project(&mut self, project: u32) -> (r: Result<Request<NoBody>, ApiError>)
        ensures
            *final(self) == (ServerConsumptionRequest { project: Some(project), detail: false, ..*old(self) }),
            planned_get(r, final(self).url@, final(self).pairs()),
    {
        self.project = Some(project);
        self.detail = false;
        get_with_params(self.url.as_str(), &self.params())
    }

    /// The consumption of one project, per user.
    pub fn project_detail(&mut self, project: u32) -> (r: Result<Request<NoBody>, ApiError>)
        ensures
            *final(self) == (ServerConsumptionRequest { project: Some(project), detail: true, ..*old(self) }),
            planned_get(r, final(self).url@, final(self).pairs()),
    {
        self.project = Some(project);
        self.detail = true;
        get_with_params(self.url.as_str(), &self.params())
    }

    /// The consumption of the whole cloud.
    pub fn all(&mut self) -> (r: Result<Request<NoBody>, ApiError>)
        ensures
            *final(self) == (ServerConsumptionRequest { all: true, detail: false, ..*old(self) }),
            planned_get(r, final(self).url@, final(self).pairs()),
    {
        self.all = true;
        self.detail = false;
        get_with_params(self.url.as_str(), &self.params())
    }

    /// The consumption of the whole cloud, per project.
    pub fn all_detail(&mut self) -> (r: Result<Request<NoBody>, ApiError>)
        ensures
            *final(self) == (ServerConsumptionRequest { all: true, detail: true, ..*old(self) }),
            planned_get(r, final(self).url@, final(self).pairs()),
    {
        self.all = true;
        self.detail = true;
        get_with_params(self.url.as_str(), &self.params())
    }

    /// One's own consumption, as scoped so far.
    pub fn mine(&mut self) -> (r: Result<Request<NoBody>, ApiError>)
        ensures
            *final(self) == *old(self),
            planned_get(r, old(self).url@, old(self).pairs()),
    {
        get_with_params(self.url.as_str(), &self.params())
    }

    /// One's own consumption, per server.
    pub fn mine_detail(&mut self) -> (r: Result<Request<NoBody>, ApiError>)
        ensures
            *final(self) == (ServerConsumptionRequest { detail: true, ..*old(self) }),
            planned_get(r, final(self).url@, final(self).pairs()),
    {
        self.detail = true;
        get_with_params(self.url.as_str(), &self.params())
    }
}

/// The consumption endpoint `/accounting/serverconsumption/`.
pub struct ServerConsumptionApi {
    pub url: String,
}

impl ServerConsumptionApi {
    pub fn new(base_url: &str) -> (r: ServerConsumptionApi)
        ensures
            r.url@ == base_url@ + "/accounting/serverconsumption/"@,
    {
        ServerConsumptionApi { url: join(base_url, "/accounting/serverconsumption/") }
    }

    /// A consumption report, without scope yet.
    pub fn get(&self) -> (r: ServerConsumptionRequest)
        ensures
            r.url@ == self.url@,
            r.begin is None && r.end is None && r.server is None && r.user is None,
            r.project is None && !r.all && !r.detail,
    {
        ServerConsumptionRequest::new(self.url.as_str())
    }
}

/// Every filter set on a consumption request is in its query, in this order: the begin
/// and the end in RFC 3339, the first scope given (server, user, project, everything),
/// and `detail=1` last when details are asked for; nothing else is.
pub proof fn lemma_consumption_query(r: ServerConsumptionRequest)
    ensures
        ({
            let ps = r.pairs();
            let nb: int = if r.begin is Some { 1 } else { 0 };
            let ne: int = if r.end is Some { 1 } else { 0 };
            let ns: int = if r.server is Some || r.user is Some || r.project is Some || r.all { 1 } else { 0 };
            let nd: int = if r.detail { 1 } else { 0 };
            &&& ps.len() == nb + ne + ns + nd
            &&& (r.begin matches Some(b) ==> ps[0] == ("begin"@, b.rfc3339()))
            &&& (r.end matches Some(e) ==> ps[nb] == ("end"@, e.rfc3339()))
            &&& (r.server matches Some(s) ==> ps[nb + ne] == ("server"@, s@))
            &&& ((r.server is None && r.user is Some) ==> ps[nb + ne] == ("user"@, dec(r.user->0 as nat)))
            &&& ((r.server is None && r.user is None && r.project is Some) ==> ps[nb + ne] == (
                "project"@,
                dec(r.project->0 as nat),
            ))
            &&& ((r.server is None && r.user is None && r.project is None && r.all) ==> ps[nb + ne] == (
                "all"@,
                "1"@,
            ))
            &&& (r.detail ==> ps[nb + ne + ns] == ("detail"@, "1"@))
        }),
{
}

} // verus!
