//! Project budgets: listing, reading, creating, changing and deleting them, and which
//! are over their limits.
use crate::common::{
    delete_item, get_item, get_with_params, get_with_query, item_url, join, join_id_slash,
    join_slash, opt_bool_pair, opt_u32_pair, pairs_view, planned_get, push_bool, push_pair,
    push_u32, with_data, with_query, ApiError, Method, NoBody, Request, CREATED, NO_CONTENT, OK,
};
use crate::datetime::DateTime;
use crate::text::u32_to_string;
use vstd::prelude::*;

verus! {

/// The budget of a project for a year.
#[derive(Debug, Clone)]
pub struct ProjectBudget {
    pub id: u32,
    pub project: u32,
    pub project_name: String,
    pub year: u32,
    pub amount: u32,
}

impl ProjectBudget {
    /// `ProjectBudget(id=<id>)`.
    pub fn to_string(&self) -> (r: String)
        ensures
            r@ == "ProjectBudget(id="@ + crate::text::dec(self.id as nat) + ")"@,
    {
        let mut s = "ProjectBudget(id=".to_owned();
        s.append(u32_to_string(self.id).as_str());
        s.append(")");
        s
    }
}

/// The filters of a project budget listing.
#[derive(Debug, Clone, Copy, PartialEq, Eq, Structural)]
pub struct ProjectBudgetListParams {
    pub user: Option<u32>,
    pub project: Option<u32>,
    pub all: Option<bool>,
    pub year: Option<u32>,
}

impl ProjectBudgetListParams {
    /// The query pairs, in field order, without absent fields.
    pub open spec fn pairs(self) -> Seq<(Seq<char>, Seq<char>)> {
        opt_u32_pair("user"@, self.user) + opt_u32_pair("project"@, self.project) + opt_bool_pair(
            "all"@,
            self.all,
        ) + opt_u32_pair("year"@, self.year)
    }

    pub fn to_pairs(&self) -> (r: Vec<(String, String)>)
        ensures
            pairs_view(r@) == self.pairs(),
    {
        let mut v: Vec<(String, String)> = Vec::new();
        assert(pairs_view(v@) =~= Seq::empty());
        push_u32(&mut v, "user", self.user);
        push_u32(&mut v, "project", self.project);
        push_bool(&mut v, "all", self.all);
        push_u32(&mut v, "year", self.year);
        assert(pairs_view(v@) =~= self.pairs());
        v
    }
}

/// A project budget listing to send.
pub struct ProjectBudgetListRequest {
    pub url: String,
    pub params: ProjectBudgetListParams,
}

impl ProjectBudgetListRequest {
    pub fn new(url: &str) -> (r: Self)
        ensures
            r.url@ == url@,
            r.params == (ProjectBudgetListParams { user: None, project: None, all: None, year: None }),
    {
        ProjectBudgetListRequest {
            url: url.to_owned(),
            params: ProjectBudgetListParams { user: None, project: None, all: None, year: None },
        }
    }

    /// `GET` of the listing URL with the filters as query.
    pub fn send(&self) -> (r: Request<NoBody>)
        ensures
            r.method == Method::Get,
            r.url@ == with_query(self.url@, self.params.pairs()),
            r.data is None,
            r.expected_status == OK,
    {
        let pairs = self.params.to_pairs();
        get_with_query(self.url.as_str(), &pairs)
    }

    pub fn user(&mut self, user: u32) -> (r: &mut Self)
        ensures
            r.url == old(self).url,
            r.params == (ProjectBudgetListParams { user: Some(user), ..old(self).params }),
            *final(self) == *final(r),
    {
        self.params.user = Some(user);
        self
    }

    pub fn project(&mut self, project: u32) -> (r: &mut Self)
        ensures
            r.url == old(self).url,
            r.params == (ProjectBudgetListParams { project: Some(project), ..old(self).params }),
            *final(self) == *final(r),
    {
        self.params.project = Some(project);
        self
    }

    pub fn all(&mut self) -> (r: &mut Self)
        ensures
            r.url == old(self).url,
            r.params == (ProjectBudgetListParams { all: Some(true), ..old(self).params }),
            *final(self) == *final(r),
    {
        self.params.all = Some(true);
        self
    }

    pub fn year(&mut self, year: u32) -> (r: &mut Self)
        ensures
            r.url == old(self).url,
            r.params == (ProjectBudgetListParams { year: Some(year), ..old(self).params }),
            *final(self) == *final(r),
    {
        self.params.year = Some(year);
        self
    }
}

/// The body of a project budget creation.
#[derive(Debug, Clone, Copy, PartialEq, Eq, Structural)]
pub struct ProjectBudgetCreateData {
    pub project: u32,
    pub year: Option<u32>,
    pub amount: Option<i64>,
}

impl ProjectBudgetCreateData {
    pub fn new(project: u32) -> (r: Self)
        ensures
            r == (ProjectBudgetCreateData { project, year: None, amount: None }),
    {
        ProjectBudgetCreateData { project, year: None, amount: None }
    }
}

/// A project budget creation to send.
pub struct ProjectBudgetCreateRequest {
    pub url: String,
    pub data: ProjectBudgetCreateData,
}

impl ProjectBudgetCreateRequest {
    pub fn new(url: &str, project: u32) -> (r: Self)
        ensures
            r.url@ == url@,
            r.data == (ProjectBudgetCreateData { project, year: None, amount: None }),
    {
        ProjectBudgetCreateRequest { url: url.to_owned(), data: ProjectBudgetCreateData::new(project) }
    }

    pub fn year(&mut self, year: u32) -> (r: &mut Self)
        ensures
            r.url == old(self).url,
            r.data == (ProjectBudgetCreateData { year: Some(year), ..old(self).data }),
            *final(self) == *final(r),
    {
        self.data.year = Some(year);
        self
    }

    pub fn amount(&mut self, amount: i64) -> (r: &mut Self)
        ensures
            r.url == old(self).url,
            r.data == (ProjectBudgetCreateData { amount: Some(amount), ..old(self).data }),
            *final(self) == *final(r),
    {
        self.data.amount = Some(amount);
        self
    }

    /// `POST` of the data, answered with `201 Created`.
    pub fn send(&self) -> (r: Request<ProjectBudgetCreateData>)
        ensures
            r.method == Method::Post,
            r.url@ == self.url@,
            r.data == Some(self.data),
            r.expected_status == CREATED,
    {
        with_data(Method::Post, self.url.clone(), self.data, CREATED)
    }
}

/// The body of a project budget change; `force` is sent only when set.
#[derive(Debug, Clone, Copy, PartialEq, Eq, Structural)]
pub struct ProjectBudgetModifyData {
    pub id: u32,
    pub amount: Option<u32>,
    pub force: bool,
}

impl ProjectBudgetModifyData {
    pub fn new(id: u32) -> (r: Self)
        ensures
            r == (ProjectBudgetModifyData { id, amount: None, force: false }),
    {
        ProjectBudgetModifyData { id, amount: None, force: false }
    }
}

/// A project budget change to send.
pub struct ProjectBudgetModifyRequest {
    pub url: String,
    pub data: ProjectBudgetModifyData,
}

impl ProjectBudgetModifyRequest {
    pub fn new(url: &str, id: u32) -> (r: Self)
        ensures
            r.url@ == url@,
            r.data == (ProjectBudgetModifyData { id, amount: None, force: false }),
    {
        ProjectBudgetModifyRequest { url: url.to_owned(), data: ProjectBudgetModifyData::new(id) }
    }

    pub fn amount(&mut self, amount: u32) -> (r: &mut Self)
        ensures
            r.url == old(self).url,
            r.data == (ProjectBudgetModifyData { amount: Some(amount), ..old(self).data }),
            *final(self) == *final(r),
    {
        self.data.amount = Some(amount);
        self
    }

    /// Sets the amount even below what is already spent.
    pub fn force(&mut self) -> (r: &mut Self)
        ensures
            r.url == old(self).url,
            r.data == (ProjectBudgetModifyData { force: true, ..old(self).data }),
            *final(self) == *final(r),
    {
        self.data.force = true;
        self
    }

    /// `PATCH` of the data, answered with `200 OK`.
    pub fn send(&self) -> (r: Request<ProjectBudgetModifyData>)
        ensures
            r.method == Method::Patch,
            r.url@ == self.url@,
            r.data == Some(self.data),
            r.expected_status == OK,
    {
        with_data(Method::Patch, self.url.clone(), self.data, OK)
    }
}

/// A report on which project budgets are over their limits.
pub struct ProjectBudgetOverRequest {
    pub url: String,
    pub end: Option<DateTime>,
    pub budget: Option<u32>,
    pub project: Option<u32>,
    pub all: bool,
    pub detail: bool,
}

impl ProjectBudgetOverRequest {
    pub fn new(url: &str) -> (r: Self)
        ensures
            r.url@ == url@,
            r.end is None && r.budget is None && r.project is None && !r.all && !r.detail,
    {
        ProjectBudgetOverRequest {
            url: url.to_owned(),
            end: None,
            budget: None,
            project: None,
            all: false,
            detail: false,
        }
    }

    /// The query: the end in RFC 3339, the most specific scope given (a budget, else a
    /// project, else everything), then whether to detail.
    pub open spec fn pairs(self) -> Seq<(Seq<char>, Seq<char>)> {
        (match self.end {
            Some(e) => seq![("end"@, e.rfc3339())],
            None => Seq::empty(),
        }) + (if self.budget is Some {
            opt_u32_pair("budget"@, self.budget)
        } else if self.project is Some {
            opt_u32_pair("project"@, self.project)
        } else if self.all {
            seq![("all"@, "1"@)]
        } else {
            Seq::empty()
        }) + (if self.detail {
            seq![("detail"@, "1"@)]
        } else {
            Seq::empty()
        })
    }

    fn params(&self) -> (r: Vec<(String, String)>)
        ensures
            pairs_view(r@) == self.pairs(),
    {
        let mut v: Vec<(String, String)> = Vec::new();
        assert(pairs_view(v@) =~= Seq::empty());
        match &self.end {
            Some(e) => push_pair(&mut v, "end", e.to_rfc3339()),
            None => {},
        }
        if self.budget.is_some() {
            push_u32(&mut v, "budget", self.budget);
        } else if self.project.is_some() {
            push_u32(&mut v, "project", self.project);
        } else if self.all {
            push_pair(&mut v, "all", "1".to_owned());
        }
        if self.detail {
            push_pair(&mut v, "detail", "1".to_owned());
        }
        assert(pairs_view(v@) =~= self.pairs());
        v
    }

    pub fn end(&mut self, end: DateTime) -> (r: &mut Self)
        ensures
            *r == (ProjectBudgetOverRequest { end: Some(end), ..*old(self) }),
            *final(self) == *final(r),
    {
        self.end = Some(end);
        self
    }

    pub fn budget(&mut self, budget: u32) -> (r: &mut Self)
        ensures
            *r == (ProjectBudgetOverRequest { budget: Some(budget), ..*old(self) }),
            *final(self) == *final(r),
    {
        self.budget = Some(budget);
        self
    }

    pub fn project(&mut self, project: u32) -> (r: &mut Self)
        ensures
            *r == (ProjectBudgetOverRequest { project: Some(project), ..*old(self) }),
            *final(self) == *final(r),
    {
        self.project = Some(project);
        self
    }

    pub fn all(&mut self) -> (r: &mut Self)
        ensures
            *r == (ProjectBudgetOverRequest { all: true, ..*old(self) }),
            *final(self) == *final(r),
    {
        self.all = true;
        self
    }

    /// The report without details.
    pub fn normal(&mut self) -> (r: Result<Request<NoBody>, ApiError>)
        ensures
            *final(self) == (ProjectBudgetOverRequest { detail: false, ..*old(self) }),
            planned_get(r, final(self).url@, final(self).pairs()),
    {
        self.detail = false;
        get_with_params(self.url.as_str(), &self.params())
    }

    /// The report with costs and limits.
    pub fn detail(&mut self) -> (r: Result<Request<NoBody>, ApiError>)
        ensures
            *final(self) == (ProjectBudgetOverRequest { detail: true, ..*old(self) }),
            planned_get(r, final(self).url@, final(self).pairs()),
    {
        self.detail = true;
        get_with_params(self.url.as_str(), &self.params())
    }
}

/// The project budget endpoints under `/budgeting/projectbudgets`.
pub struct ProjectBudgetApi {
    pub url: String,
}

impl ProjectBudgetApi {
    pub fn new(base_url: &str) -> (r: ProjectBudgetApi)
        ensures
            r.url@ == base_url@ + "/budgeting/projectbudgets"@,
    {
        ProjectBudgetApi { url: join(base_url, "/budgeting/projectbudgets") }
    }

    pub fn list(&self) -> (r: ProjectBudgetListRequest)
        ensures
            r.url@ == self.url@,
            r.params == (ProjectBudgetListParams { user: None, project: None, all: None, year: None }),
    {
        ProjectBudgetListRequest::new(self.url.as_str())
    }

    /// `GET <url>/<id>`.
    pub fn get(&self, id: u32) -> (r: Request<NoBody>)
        ensures
            r.method == Method::Get,
            r.url@ == item_url(self.url@, id),
            r.data is None,
            r.expected_status == OK,
    {
        get_item(self.url.as_str(), id)
    }

    /// A creation, sent to `<url>/`.
    pub fn create(&self, project: u32) -> (r: ProjectBudgetCreateRequest)
        ensures
            r.url@ == self.url@ + seq!['/'],
            r.data == (ProjectBudgetCreateData { project, year: None, amount: None }),
    {
        let url = join_slash(self.url.as_str());
        ProjectBudgetCreateRequest::new(url.as_str(), project)
    }

    /// A change, sent to `<url>/<id>/`.
    pub fn modify(&self, id: u32) -> (r: ProjectBudgetModifyRequest)
        ensures
            r.url@ == item_url(self.url@, id) + seq!['/'],
            r.data == (ProjectBudgetModifyData { id, amount: None, force: false }),
    {
        let url = join_id_slash(self.url.as_str(), id);
        ProjectBudgetModifyRequest::new(url.as_str(), id)
    }

    /// `DELETE <url>/<id>/`, answered with `204 No Content`.
    pub fn delete(&self, id: u32) -> (r: Request<NoBody>)
        ensures
            r.method == Method::Delete,
            r.url@ == item_url(self.url@, id) + seq!['/'],
            r.data is None,
            r.expected_status == NO_CONTENT,
    {
        delete_item(self.url.as_str(), id)
    }

    /// A report on `<url>/over/`, without scope yet.
    pub fn over(&self) -> (r: ProjectBudgetOverRequest)
        ensures
            r.url@ == self.url@ + "/over/"@,
            r.end is None && r.budget is None && r.project is None && !r.all && !r.detail,
    {
        let url = join(self.url.as_str(), "/over/");
        ProjectBudgetOverRequest::new(url.as_str())
    }
}

/// The query of a project budget listing holds exactly the filters set, one pair each, in field order.
pub proof fn lemma_projectbudgetlistparams_query(p: ProjectBudgetListParams)
    ensures
        p.pairs().len() == crate::common::present(p.user) + crate::common::present(p.project) + crate::common::present(p.all) + crate::common::present(p.year),
        p.user matches Some(v) ==> p.pairs()[0] == ("user"@, crate::text::dec(v as nat)),
        p.project matches Some(v) ==> p.pairs()[crate::common::present(p.user)] == ("project"@, crate::text::dec(v as nat)),
        p.all matches Some(v) ==> p.pairs()[crate::common::present(p.user) + crate::common::present(p.project)] == ("all"@, crate::common::bool_text(v)),
        p.year matches Some(v) ==> p.pairs()[crate::common::present(p.user) + crate::common::present(p.project) + crate::common::present(p.all)] == ("year"@, crate::text::dec(v as nat)),
{
}

/// A report on project budgets over their limits asks for the end in RFC 3339 when set,
/// then the most specific scope given (a budget, else a project, else everything), then
/// `detail=1` when details are asked for; nothing else.
pub proof fn lemma_over_query(r: ProjectBudgetOverRequest)
    ensures
        ({
            let ps = r.pairs();
            let ne: int = crate::common::present(r.end);
            let ns: int = if r.budget is Some || r.project is Some || r.all { 1 } else { 0 };
            &&& ps.len() == ne + ns + (if r.detail { 1int } else { 0int })
            &&& (r.end matches Some(e) ==> ps[0] == ("end"@, e.rfc3339()))
            &&& (r.budget matches Some(b) ==> ps[ne] == ("budget"@, crate::text::dec(b as nat)))
            &&& ((r.budget is None && r.project is Some) ==> ps[ne] == (
                "project"@,
                crate::text::dec(r.project->0 as nat),
            ))
            &&& ((r.budget is None && r.project is None && r.all) ==> ps[ne] == ("all"@, "1"@))
            &&& (r.detail ==> ps.last() == ("detail"@, "1"@))
        }),
{
}

} // verus!
