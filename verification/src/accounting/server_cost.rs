//! The cost of servers over a period, for a server, user, project or everything.
use crate::common::{
    get_with_query, join, opt_bool_pair, opt_text_pair, opt_time_pair, opt_u32_pair, opt_view,
    pairs_view, push_bool, push_text, push_time, push_u32, with_query, Method, NoBody, Request,
    OK,
};
use crate::datetime::DateTime;
use vstd::prelude::*;

verus! {

/// The filters of a cost report.
#[derive(Debug, Clone)]
pub struct ServerCostParams {
    pub begin: Option<DateTime>,
    pub end: Option<DateTime>,
    pub server: Option<String>,
    pub user: Option<u32>,
    pub project: Option<u32>,
    pub all: Option<bool>,
    pub detail: Option<bool>,
}

impl ServerCostParams {
    /// The query pairs, in field order, without absent fields.
    pub open spec fn pairs(self) -> Seq<(Seq<char>, Seq<char>)> {
        opt_time_pair("begin"@, self.begin) + opt_time_pair("end"@, self.end) + opt_text_pair(
            "server"@,
            opt_view(self.server),
        ) + opt_u32_pair("user"@, self.user) + opt_u32_pair("project"@, self.project)
            + opt_bool_pair("all"@, self.all) + opt_bool_pair("detail"@, self.detail)
    }

    pub fn to_pairs(&self) -> (r: Vec<(String, String)>)
        ensures
            pairs_view(r@) == self.pairs(),
    {
        let mut v: Vec<(String, String)> = Vec::new();
        assert(pairs_view(v@) =~= Seq::empty());
        push_time(&mut v, "begin", &self.begin);
        push_time(&mut v, "end", &self.end);
        push_text(&mut v, "server", &self.server);
        push_u32(&mut v, "user", self.user);
        push_u32(&mut v, "project", self.project);
        push_bool(&mut v, "all", self.all);
        push_bool(&mut v, "detail", self.detail);
        assert(pairs_view(v@) =~= self.pairs());
        v
    }
}

/// No filters.
pub open spec fn no_cost_filters() -> ServerCostParams {
    ServerCostParams {
        begin: None,
        end: None,
        server: None,
        user: None,
        project: None,
        all: None,
        detail: None,
    }
}

/// A cost report to ask for.
pub struct ServerCostRequest {
    pub url: String,
    pub params: ServerCostParams,
}

/// A `GET` of `url` with the filters as query.
pub open spec fn planned_cost(r: Request<NoBody>, url: Seq<char>, params: ServerCostParams) -> bool {
    &&& r.method == Method::Get
    &&& r.url@ == with_query(url, params.pairs())
    &&& r.data is None
    &&& r.expected_status == OK
}

impl ServerCostRequest {
    pub fn new(url: &str) -> (r: Self)
        ensures
            r.url@ == url@,
            r.params == no_cost_filters(),
    {
        ServerCostRequest {
            url: url.to_owned(),
            params: ServerCostParams {
                begin: None,
                end: None,
                server: None,
                user: None,
                project: None,
                all: None,
                detail: None,
            },
        }
    }

    fn query(&self) -> (r: Request<NoBody>)
        ensures
            planned_cost(r, self.url@, self.params),
    {
        let pairs = self.params.to_pairs();
        get_with_query(self.url.as_str(), &pairs)
    }

    pub fn begin(&mut self, begin: DateTime) -> (r: &mut Self)
        ensures
            r.url == old(self).url,
            r.params == (ServerCostParams { begin: Some(begin), ..old(self).params }),
            *final(self) == *final(r),
    {
        self.params.begin = Some(begin);
        self
    }

    pub fn end(&mut self, end: DateTime) -> (r: &mut Self)
        ensures
            r.url == old(self).url,
            r.params == (ServerCostParams { end: Some(end), ..old(self).params }),
            *final(self) == *final(r),
    {
        self.params.end = Some(end);
        self
    }

    /// The cost of one server.
    pub fn server(&mut self, server: &str) -> (r: Request<NoBody>)
        ensures
            final(self).url == old(self).url,
            final(self).params.server matches Some(s) && s@ == server@,
            final(self).params == (ServerCostParams {
                server: final(self).params.server,
                ..old(self).params
            }),
            planned_cost(r, final(self).url@, final(self).params),
    {
        self.params.server = Some(server.to_owned());
        self.query()
    }

    /// The cost of one server, per flavor.
    pub fn server_detail(&mut self, server: &str) -> (r: Request<NoBody>)
        ensures
            final(self).url == old(self).url,
            final(self).params.server matches Some(s) && s@ == server@,
            final(self).params == (ServerCostParams {
                server: final(self).params.server,
                detail: Some(true),
                ..old(self).params
            }),
            planned_cost(r, final(self).url@, final(self).params),
    {
        self.params.server = Some(server.to_owned());
        self.params.detail = Some(true);
        self.query()
    }

    /// The cost of one user.
    pub fn user(&mut self, user: u32) -> (r: Request<NoBody>)
        ensures
            final(self).url == old(self).url,
            final(self).params == (ServerCostParams { user: Some(user), ..old(self).params }),
            planned_cost(r, final(self).url@, final(self).params),
    {
        self.params.user = Some(user);
        self.query()
    }

    /// The cost of one user, per server.
    pub fn user_detail(&mut self, user: u32) -> (r: Request<NoBody>)
        ensures
            final(self).url == old(self).url,
            final(self).params == (ServerCostParams {
                user: Some(user),
                detail: Some(true),
                ..old(self).params
            }),
            planned_cost(r, final(self).url@, final(self).params),
    {
        self.params.user = Some(user);
        self.params.detail = Some(true);
        self.query()
    }

    /// The cost of one project.
    pub fn project(&mut self, project: u32) -> (r: Request<NoBody>)
        ensures
            final(self).url == old(self).url,
            final(self).params == (ServerCostParams { project: Some(project), ..old(self).params }),
            planned_cost(r, final(self).url@, final(self).params),
    {
        self.params.project = Some(project);
        self.query()
    }

    /// The cost of one project, per user.
    pub fn project_detail(&mut self, project: u32) -> (r: Request<NoBody>)
        ensures
            final(self).url == old(self).url,
            final(self).params == (ServerCostParams {
                project: Some(project),
                detail: Some(true),
                ..old(self).params
            }),
            planned_cost(r, final(self).url@, final(self).params),
    {
        self.params.project = Some(project);
        self.params.detail = Some(true);
        self.query()
    }

    /// The cost of the whole cloud.
    pub fn all(&mut self) -> (r: Request<NoBody>)
        ensures
            final(self).url == old(self).url,
            final(self).params == (ServerCostParams { all: Some(true), ..old(self).params }),
            planned_cost(r, final(self).url@, final(self).params),
    {
        self.params.all = Some(true);
        self.query()
    }

    /// The cost of the whole cloud, per project.
    pub fn all_detail(&mut self) -> (r: Request<NoBody>)
        ensures
            final(self).url == old(self).url,
            final(self).params == (ServerCostParams {
                all: Some(true),
                detail: Some(true),
                ..old(self).params
            }),
            planned_cost(r, final(self).url@, final(self).params),
    {
        self.params.all = Some(true);
        self.params.detail = Some(true);
        self.query()
    }

    /// One's own cost.
    pub fn mine(&mut self) -> (r: Request<NoBody>)
        ensures
            *final(self) == *old(self),
            planned_cost(r, old(self).url@, old(self).params),
    {
        self.query()
    }

    /// One's own cost, per server.
    pub fn mine_detail(&mut self) -> (r: Request<NoBody>)
        ensures
            final(self).url == old(self).url,
            final(self).params == (ServerCostParams { detail: Some(true), ..old(self).params }),
            planned_cost(r, final(self).url@, final(self).params),
    {
        self.params.detail = Some(true);
        self.query()
    }
}

/// The cost endpoint `/accounting/servercost/`.
pub struct ServerCostApi {
    pub url: String,
}

impl ServerCostApi {
    pub fn new(base_url: &str) -> (r: ServerCostApi)
        ensures
            r.url@ == base_url@ + "/accounting/servercost/"@,
    {
        ServerCostApi { url: join(base_url, "/accounting/servercost/") }
    }

    /// A cost report, without filters yet.
    pub fn get(&self) -> (r: ServerCostRequest)
        ensures
            r.url@ == self.url@,
            r.params == no_cost_filters(),
    {
        ServerCostRequest::new(self.url.as_str())
    }
}

/// The query of a cost report holds exactly the filters set, one pair each, in field order.
pub proof fn lemma_servercostparams_query(p: ServerCostParams)
    ensures
        p.pairs().len() == crate::common::present(p.begin) + crate::common::present(p.end) + crate::common::present(p.server) + crate::common::present(p.user) + crate::common::present(p.project) + crate::common::present(p.all) + crate::common::present(p.detail),
        p.begin matches Some(v) ==> p.pairs()[0] == ("begin"@, v.iso8601()),
        p.end matches Some(v) ==> p.pairs()[crate::common::present(p.begin)] == ("end"@, v.iso8601()),
        p.server matches Some(v) ==> p.pairs()[crate::common::present(p.begin) + crate::common::present(p.end)] == ("server"@, v@),
        p.user matches Some(v) ==> p.pairs()[crate::common::present(p.begin) + crate::common::present(p.end) + crate::common::present(p.server)] == ("user"@, crate::text::dec(v as nat)),
        p.project matches Some(v) ==> p.pairs()[crate::common::present(p.begin) + crate::common::present(p.end) + crate::common::present(p.server) + crate::common::present(p.user)] == ("project"@, crate::text::dec(v as nat)),
        p.all matches Some(v) ==> p.pairs()[crate::common::present(p.begin) + crate::common::present(p.end) + crate::common::present(p.server) + crate::common::present(p.user) + crate::common::present(p.project)] == ("all"@, crate::common::bool_text(v)),
        p.detail matches Some(v) ==> p.pairs()[crate::common::present(p.begin) + crate::common::present(p.end) + crate::common::present(p.server) + crate::common::present(p.user) + crate::common::present(p.project) + crate::common::present(p.all)] == ("detail"@, crate::common::bool_text(v)),
{
}

} // verus!
