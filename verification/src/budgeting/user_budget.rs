//! User budgets: listing, reading, creating, changing and deleting them, which are over
//! their limits, and bringing them in line with the project budgets.
use crate::common::{
    delete_item, get_item, get_suffix, get_with_query, item_url, join, join_id_slash, join_slash,
    opt_bool_pair, opt_time_pair, opt_u32_pair, pairs_view, push_bool, push_time, push_u32,
    with_data, with_query, Method, NoBody, Request, CREATED, NO_CONTENT, OK,
};
use crate::datetime::DateTime;
use crate::text::{dec, u32_to_string};
use vstd::prelude::*;

verus! {

/// The budget of a user for a year.
#[derive(Debug, Clone)]
pub struct UserBudget {
    pub id: u32,
    pub user: u32,
    pub username: String,
    pub year: u32,
    pub amount: u32,
}

impl UserBudget {
    /// `UserBudget(id=<id>)`.
    pub fn to_string(&self) -> (r: String)
        ensures
            r@ == "UserBudget(id="@ + dec(self.id as nat) + ")"@,
    {
        let mut s = "UserBudget(id=".to_owned();
        s.append(u32_to_string(self.id).as_str());
        s.append(")");
        s
    }
}

/// Whether a user budget is over its limit.
#[derive(Debug, Clone)]
pub struct UserBudgetOver {
    pub budget_id: u32,
    pub user_id: u32,
    pub user_name: String,
    pub over: bool,
}

/// Whether a user budget or the budget of the user's project is over its limit.
#[derive(Debug, Clone)]
pub struct UserBudgetCombined {
    pub budget_id: u32,
    pub user_id: u32,
    pub user_name: String,
    pub project_budget_id: u32,
    pub project_id: u32,
    pub project_name: String,
    pub over: bool,
}

/// The filters of a user budget listing.
#[derive(Debug, Clone, Copy, PartialEq, Eq, Structural)]
pub struct UserBudgetListParams {
    pub user: Option<u32>,
    pub project: Option<u32>,
    pub all: Option<bool>,
    pub year: Option<u32>,
}

impl UserBudgetListParams {
    /// The query pairs, in field order, without absent fields.
    pub open spec fn pairs(self) -> Seq<(Seq<char>, Seq<char>)> {
        opt_u32_pair("user"@, self.user) + opt_u32_pair("project"@, self.project) + opt_bool_pair(
            "all"@,
            self.all,
        ) + opt_u32_pair("year"@, self.year)
    }

    pub fn to_pairs(&self) -> (r: Vec<(String, String)>)
        ensures
            pairs_view(r@) == self.pairs(),
    {
        let mut v: Vec<(String, String)> = Vec::new();
        assert(pairs_view(v@) =~= Seq::empty());
        push_u32(&mut v, "user", self.user);
        push_u32(&mut v, "project", self.project);
        push_bool(&mut v, "all", self.all);
        push_u32(&mut v, "year", self.year);
        assert(pairs_view(v@) =~= self.pairs());
        v
    }
}

/// A user budget listing to send.
pub struct UserBudgetListRequest {
    pub url: String,
    pub params: UserBudgetListParams,
}

impl UserBudgetListRequest {
    pub fn new(url: &str) -> (r: Self)
        ensures
            r.url@ == url@,
            r.params == (UserBudgetListParams { user: None, project: None, all: None, year: None }),
    {
        UserBudgetListRequest {
            url: url.to_owned(),
            params: UserBudgetListParams { user: None, project: None, all: None, year: None },
        }
    }

    /// `GET` of the listing URL with the filters as query.
    pub fn send(&self) -> (r: Request<NoBody>)
        ensures
            r.method == Method::Get,
            r.url@ == with_query(self.url@, self.params.pairs()),
            r.data is None,
            r.expected_status == OK,
    {
        let pairs = self.params.to_pairs();
        get_with_query(self.url.as_str(), &pairs)
    }

    pub fn user(&mut self, user: u32) -> (r: &mut Self)
        ensures
            r.url == old(self).url,
            r.params == (UserBudgetListParams { user: Some(user), ..old(self).params }),
            *final(self) == *final(r),
    {
        self.params.user = Some(user);
        self
    }

    pub fn project(&mut self, project: u32) -> (r: &mut Self)
        ensures
            r.url == old(self).url,
            r.params == (UserBudgetListParams { project: Some(project), ..old(self).params }),
            *final(self) == *final(r),
    {
        self.params.project = Some(project);
        self
    }

    pub fn all(&mut self) -> (r: &mut Self)
        ensures
            r.url == old(self).url,
            r.params == (UserBudgetListParams { all: Some(true), ..old(self).params }),
            *final(self) == *final(r),
    {
        self.params.all = Some(true);
        self
    }

    pub fn year(&mut self, year: u32) -> (r: &mut Self)
        ensures
            r.url == old(self).url,
            r.params == (UserBudgetListParams { year: Some(year), ..old(self).params }),
            *final(self) == *final(r),
    {
        self.params.year = Some(year);
        self
    }
}

/// The body of a user budget creation.
#[derive(Debug, Clone, Copy, PartialEq, Eq, Structural)]
pub struct UserBudgetCreateData {
    pub user: u32,
    pub year: Option<u32>,
    pub amount: Option<i64>,
}

impl UserBudgetCreateData {
    pub fn new(user: u32) -> (r: Self)
        ensures
            r == (UserBudgetCreateData { user, year: None, amount: None }),
    {
        UserBudgetCreateData { user, year: None, amount: None }
    }
}

/// A user budget creation to send.
pub struct UserBudgetCreateRequest {
    pub url: String,
    pub data: UserBudgetCreateData,
}

impl UserBudgetCreateRequest {
    pub fn new(url: &str, user: u32) -> (r: Self)
        ensures
            r.url@ == url@,
            r.data == (UserBudgetCreateData { user, year: None, amount: None }),
    {
        UserBudgetCreateRequest { url: url.to_owned(), data: UserBudgetCreateData::new(user) }
    }

    pub fn year(&mut self, year: u32) -> (r: &mut Self)
        ensures
            r.url == old(self).url,
            r.data == (UserBudgetCreateData { year: Some(year), ..old(self).data }),
            *final(self) == *final(r),
    {
        self.data.year = Some(year);
        self
    }

    pub fn amount(&mut self, amount: i64) -> (r: &mut Self)
        ensures
            r.url == old(self).url,
            r.data == (UserBudgetCreateData { amount: Some(amount), ..old(self).data }),
            *final(self) == *final(r),
    {
        self.data.amount = Some(amount);
        self
    }

    /// `POST` of the data, answered with `201 Created`.
    pub fn send(&self) -> (r: Request<UserBudgetCreateData>)
        ensures
            r.method == Method::Post,
            r.url@ == self.url@,
            r.data == Some(self.data),
            r.expected_status == CREATED,
    {
        with_data(Method::Post, self.url.clone(), self.data, CREATED)
    }
}

/// The body of a user budget change; `force` is sent only when set.
#[derive(Debug, Clone, Copy, PartialEq, Eq, Structural)]
pub struct UserBudgetModifyData {
    pub id: u32,
    pub amount: Option<u32>,
    pub force: bool,
}

impl UserBudgetModifyData {
    pub fn new(id: u32) -> (r: Self)
        ensures
            r == (UserBudgetModifyData { id, amount: None, force: false }),
    {
        UserBudgetModifyData { id, amount: None, force: false }
    }
}

/// A user budget change to send.
pub struct UserBudgetModifyRequest {
    pub url: String,
    pub data: UserBudgetModifyData,
}

impl UserBudgetModifyRequest {
    pub fn new(url: &str, id: u32) -> (r: Self)
        ensures
            r.url@ == url@,
            r.data == (UserBudgetModifyData { id, amount: None, force: false }),
    {
        UserBudgetModifyRequest { url: url.to_owned(), data: UserBudgetModifyData::new(id) }
    }

    pub fn amount(&mut self, amount: u32) -> (r: &mut Self)
        ensures
            r.url == old(self).url,
            r.data == (UserBudgetModifyData { amount: Some(amount), ..old(self).data }),
            *final(self) == *final(r),
    {
        self.data.amount = Some(amount);
        self
    }

    /// Sets the amount even below what is already spent.
    pub fn force(&mut self) -> (r: &mut Self)
        ensures
            r.url == old(self).url,
            r.data == (UserBudgetModifyData { force: true, ..old(self).data }),
            *final(self) == *final(r),
    {
        self.data.force = true;
        self
    }

    /// `PATCH` of the data, answered with `200 OK`.
    pub fn send(&self) -> (r: Request<UserBudgetModifyData>)
        ensures
            r.method == Method::Patch,
            r.url@ == self.url@,
            r.data == Some(self.data),
            r.expected_status == OK,
    {
        with_data(Method::Patch, self.url.clone(), self.data, OK)
    }
}

/// The filters of a report on user budgets over their limits.
#[derive(Debug, Clone, Copy)]
pub struct UserBudgetOverParams {
    pub end: Option<DateTime>,
    pub budget: Option<u32>,
    pub user: Option<u32>,
    pub project: Option<u32>,
    pub all: Option<bool>,
    pub combined: Option<bool>,
    pub detail: Option<bool>,
}

impl UserBudgetOverParams {
    /// The query pairs, in field order, without absent fields.
    pub open spec fn pairs(self) -> Seq<(Seq<char>, Seq<char>)> {
        opt_time_pair("end"@, self.end) + opt_u32_pair("budget"@, self.budget) + opt_u32_pair(
            "user"@,
            self.user,
        ) + opt_u32_pair("project"@, self.project) + opt_bool_pair("all"@, self.all)
            + opt_bool_pair("combined"@, self.combined) + opt_bool_pair("detail"@, self.detail)
    }

    pub fn to_pairs(&self) -> (r: Vec<(String, String)>)
        ensures
            pairs_view(r@) == self.pairs(),
    {
        let mut v: Vec<(String, String)> = Vec::new();
        assert(pairs_view(v@) =~= Seq::empty());
        push_time(&mut v, "end", &self.end);
        push_u32(&mut v, "budget", self.budget);
        push_u32(&mut v, "user", self.user);
        push_u32(&mut v, "project", self.project);
        push_bool(&mut v, "all", self.all);
        push_bool(&mut v, "combined", self.combined);
        push_bool(&mut v, "detail", self.detail);
        assert(pairs_view(v@) =~= self.pairs());
        v
    }
}

/// A report on user budgets over their limits.
pub struct UserBudgetOverRequest {
    pub url: String,
    pub params: UserBudgetOverParams,
}

/// A report with no filters.
pub open spec fn no_over_filters() -> UserBudgetOverParams {
    UserBudgetOverParams {
        end: None,
        budget: None,
        user: None,
        project: None,
        all: None,
        combined: None,
        detail: None,
    }
}

impl UserBudgetOverRequest {
    pub fn new(url: &str) -> (r: Self)
        ensures
            r.url@ == url@,
            r.params == no_over_filters(),
    {
        UserBudgetOverRequest {
            url: url.to_owned(),
            params: UserBudgetOverParams {
                end: None,
                budget: None,
                user: None,
                project: None,
                all: None,
                combined: None,
                detail: None,
            },
        }
    }

    /// `GET` of the report URL with the filters as query.
    pub fn send(&self) -> (r: Request<NoBody>)
        ensures
            r.method == Method::Get,
            r.url@ == with_query(self.url@, self.params.pairs()),
            r.data is None,
            r.expected_status == OK,
    {
        let pairs = self.params.to_pairs();
        get_with_query(self.url.as_str(), &pairs)
    }

    pub fn end(&mut self, end: DateTime) -> (r: &mut Self)
        ensures
            r.url == old(self).url,
            r.params == (UserBudgetOverParams { end: Some(end), ..old(self).params }),
            *final(self) == *final(r),
    {
        self.params.end = Some(end);
        self
    }

    pub fn budget(&mut self, budget: u32) -> (r: &mut Self)
        ensures
            r.url == old(self).url,
            r.params == (UserBudgetOverParams { budget: Some(budget), ..old(self).params }),
            *final(self) == *final(r),
    {
        self.params.budget = Some(budget);
        self
    }

    pub fn user(&mut self, user: u32) -> (r: &mut Self)
        ensures
            r.url == old(self).url,
            r.params == (UserBudgetOverParams { user: Some(user), ..old(self).params }),
            *final(self) == *final(r),
    {
        self.params.user = Some(user);
        self
    }

    pub fn project(&mut self, project: u32) -> (r: &mut Self)
        ensures
            r.url == old(self).url,
            r.params == (UserBudgetOverParams { project: Some(project), ..old(self).params }),
            *final(self) == *final(r),
    {
        self.params.project = Some(project);
        self
    }

    pub fn all(&mut self) -> (r: &mut Self)
        ensures
            r.url == old(self).url,
            r.params == (UserBudgetOverParams { all: Some(true), ..old(self).params }),
            *final(self) == *final(r),
    {
        self.params.all = Some(true);
        self
    }

    /// The report as filtered so far.
    pub fn normal(&mut self) -> (r: Request<NoBody>)
        ensures
            *final(self) == *old(self),
            r.method == Method::Get,
            r.url@ == with_query(old(self).url@, old(self).params.pairs()),
            r.data is None,
            r.expected_status == OK,
    {
        self.send()
    }

    /// The report with the project budgets combined in.
    pub fn combined(&mut self) -> (r: Request<NoBody>)
        ensures
            final(self).url == old(self).url,
            final(self).params == (UserBudgetOverParams { combined: Some(true), ..old(self).params }),
            r.method == Method::Get,
            r.url@ == with_query(final(self).url@, final(self).params.pairs()),
            r.data is None,
            r.expected_status == OK,
    {
        self.params.combined = Some(true);
        self.send()
    }

    /// The report with costs and limits.
    pub fn detail(&mut self) -> (r: Request<NoBody>)
        ensures
            final(self).url == old(self).url,
            final(self).params == (UserBudgetOverParams { detail: Some(true), ..old(self).params }),
            r.method == Method::Get,
            r.url@ == with_query(final(self).url@, final(self).params.pairs()),
            r.data is None,
            r.expected_status == OK,
    {
        self.params.detail = Some(true);
        self.send()
    }

    /// The combined report with costs and limits.
    pub fn combined_detail(&mut self) -> (r: Request<NoBody>)
        ensures
            final(self).url == old(self).url,
            final(self).params == (UserBudgetOverParams {
                combined: Some(true),
                detail: Some(true),
                ..old(self).params
            }),
            r.method == Method::Get,
            r.url@ == with_query(final(self).url@, final(self).params.pairs()),
            r.data is None,
            r.expected_status == OK,
    {
        self.params.combined = Some(true);
        self.params.detail = Some(true);
        self.send()
    }
}

/// The user budget endpoints under `/budgeting/userbudgets`.
pub struct UserBudgetApi {
    pub url: String,
}

impl UserBudgetApi {
    pub fn new(base_url: &str) -> (r: UserBudgetApi)
        ensures
            r.url@ == base_url@ + "/budgeting/userbudgets"@,
    {
        UserBudgetApi { url: join(base_url, "/budgeting/userbudgets") }
    }

    pub fn list(&self) -> (r: UserBudgetListRequest)
        ensures
            r.url@ == self.url@,
            r.params == (UserBudgetListParams { user: None, project: None, all: None, year: None }),
    {
        UserBudgetListRequest::new(self.url.as_str())
    }

    /// `GET <url>/<id>`.
    pub fn get(&self, id: u32) -> (r: Request<NoBody>)
        ensures
            r.method == Method::Get,
            r.url@ == item_url(self.url@, id),
            r.data is None,
            r.expected_status == OK,
    {
        get_item(self.url.as_str(), id)
    }

    /// A creation, sent to `<url>/`.
    pub fn create(&self, user: u32) -> (r: UserBudgetCreateRequest)
        ensures
            r.url@ == self.url@ + seq!['/'],
            r.data == (UserBudgetCreateData { user, year: None, amount: None }),
    {
        let url = join_slash(self.url.as_str());
        UserBudgetCreateRequest::new(url.as_str(), user)
    }

    /// A change, sent to `<url>/<id>/`.
    pub fn modify(&self, id: u32) -> (r: UserBudgetModifyRequest)
        ensures
            r.url@ == item_url(self.url@, id) + seq!['/'],
            r.data == (UserBudgetModifyData { id, amount: None, force: false }),
    {
        let url = join_id_slash(self.url.as_str(), id);
        UserBudgetModifyRequest::new(url.as_str(), id)
    }

    /// `DELETE <url>/<id>/`, answered with `204 No Content`.
    pub fn delete(&self, id: u32) -> (r: Request<NoBody>)
        ensures
            r.method == Method::Delete,
            r.url@ == item_url(self.url@, id) + seq!['/'],
            r.data is None,
            r.expected_status == NO_CONTENT,
    {
        delete_item(self.url.as_str(), id)
    }

    /// A report on `<url>/over/`, without filters yet.
    pub fn over(&self) -> (r: UserBudgetOverRequest)
        ensures
            r.url@ == self.url@ + "/over/"@,
            r.params == no_over_filters(),
    {
        let url = join(self.url.as_str(), "/over/");
        UserBudgetOverRequest::new(url.as_str())
    }

    /// `GET <url>/sync/`: brings the user budgets in line with their projects'.
    pub fn sync(&self) -> (r: Request<NoBody>)
        ensures
            r.method == Method::Get,
            r.url@ == self.url@ + "/sync/"@,
            r.data is None,
            r.expected_status == OK,
    {
        get_suffix(self.url.as_str(), "/sync/")
    }
}

/// The query of a user budget listing holds exactly the filters set, one pair each, in field order.
pub proof fn lemma_userbudgetlistparams_query(p: UserBudgetListParams)
    ensures
        p.pairs().len() == crate::common::present(p.user) + crate::common::present(p.project) + crate::common::present(p.all) + crate::common::present(p.year),
        p.user matches Some(v) ==> p.pairs()[0] == ("user"@, crate::text::dec(v as nat)),
        p.project matches Some(v) ==> p.pairs()[crate::common::present(p.user)] == ("project"@, crate::text::dec(v as nat)),
        p.all matches Some(v) ==> p.pairs()[crate::common::present(p.user) + crate::common::present(p.project)] == ("all"@, crate::common::bool_text(v)),
        p.year matches Some(v) ==> p.pairs()[crate::common::present(p.user) + crate::common::present(p.project) + crate::common::present(p.all)] == ("year"@, crate::text::dec(v as nat)),
{
}

/// The query of a report on user budgets over their limits holds exactly the filters set, one pair each, in field order.
pub proof fn lemma_userbudgetoverparams_query(p: UserBudgetOverParams)
    ensures
        p.pairs().len() == crate::common::present(p.end) + crate::common::present(p.budget) + crate::common::present(p.user) + crate::common::present(p.project) + crate::common::present(p.all) + crate::common::present(p.combined) + crate::common::present(p.detail),
        p.end matches Some(v) ==> p.pairs()[0] == ("end"@, v.iso8601()),
        p.budget matches Some(v) ==> p.pairs()[crate::common::present(p.end)] == ("budget"@, crate::text::dec(v as nat)),
        p.user matches Some(v) ==> p.pairs()[crate::common::present(p.end) + crate::common::present(p.budget)] == ("user"@, crate::text::dec(v as nat)),
        p.project matches Some(v) ==> p.pairs()[crate::common::present(p.end) + crate::common::present(p.budget) + crate::common::present(p.user)] == ("project"@, crate::text::dec(v as nat)),
        p.all matches Some(v) ==> p.pairs()[crate::common::present(p.end) + crate::common::present(p.budget) + crate::common::present(p.user) + crate::common::present(p.project)] == ("all"@, crate::common::bool_text(v)),
        p.combined matches Some(v) ==> p.pairs()[crate::common::present(p.end) + crate::common::present(p.budget) + crate::common::present(p.user) + crate::common::present(p.project) + crate::common::present(p.all)] == ("combined"@, crate::common::bool_text(v)),
        p.detail matches Some(v) ==> p.pairs()[crate::common::present(p.end) + crate::common::present(p.budget) + crate::common::present(p.user) + crate::common::present(p.project) + crate::common::present(p.all) + crate::common::present(p.combined)] == ("detail"@, crate::common::bool_text(v)),
{
}

} // verus!
