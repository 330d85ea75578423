//! The project budget commands: which request each sends, once the user and project
//! named on the command line are resolved to ids.
use crate::budgeting::project_budget::{
    ProjectBudgetCreateData, ProjectBudgetModifyData,
};
use crate::cli::{all_pair, is_delete, is_get, push_all};
use crate::text::dec;
use crate::common::{
    get_with_params, item_url, opt_u32_pair, pairs_view, planned_get, push_u32, ApiError, Method, NoBody, Request, CREATED, OK};
use crate::Api;
use vstd::prelude::*;

verus! {

/// Which project budgets a listing shows: those of one user, of one project, all of
/// them, or the default set; optionally of one year only.
pub struct ProjectBudgetListFilter {
    pub user: Option<u32>,
    pub project: Option<u32>,
    pub all: bool,
    pub year: Option<u32>,
}

/// The query a project budget listing sends: `user=<u>` for one user, else `project=<p>` for
/// one project, else `all=1` for all of them; then `year=<y>` when a year is given.
pub open spec fn list_pairs(filter: ProjectBudgetListFilter) -> Seq<(Seq<char>, Seq<char>)> {
    (if filter.user is Some {
        opt_u32_pair("user"@, filter.user)
    } else if filter.project is Some {
        opt_u32_pair("project"@, filter.project)
    } else if filter.all {
        all_pair()
    } else {
        Seq::empty()
    }) + opt_u32_pair("year"@, filter.year)
}

/// The listing that `project-budget list` sends: `GET` of the project budget URL as the URL parser
/// writes it, with the query appended.
pub fn list(api: &Api, filter: &ProjectBudgetListFilter) -> (r: Result<Request<NoBody>, ApiError>)
    ensures
        planned_get(r, api.project_budget.url@, list_pairs(*filter)),
{
    let mut pairs: Vec<(String, String)> = Vec::new();
    assert(pairs_view(pairs@) =~= Seq::empty());
    if filter.user.is_some() {
        push_u32(&mut pairs, "user", filter.user);
    } else if filter.project.is_some() {
        push_u32(&mut pairs, "project", filter.project);
    } else if filter.all {
        push_all(&mut pairs);
    }
    push_u32(&mut pairs, "year", filter.year);
    assert(pairs_view(pairs@) =~= list_pairs(*filter));
    get_with_params(api.project_budget.url.as_str(), &pairs)
}

/// `GET` of the project budget with this id.
pub fn get(api: &Api, id: u32) -> (r: Request<NoBody>)
    ensures
        is_get(r, item_url(api.project_budget.url@, id)),
{
    api.project_budget.get(id)
}

/// The creation that `project-budget create` sends.
pub fn create(api: &Api, project: u32, year: Option<u32>, amount: Option<i64>) -> (r: Request<
    ProjectBudgetCreateData,
>)
    ensures
        r.method == Method::Post,
        r.url@ == api.project_budget.url@ + seq!['/'],
        r.data == Some(ProjectBudgetCreateData { project, year, amount }),
        r.expected_status == CREATED,
{
    let mut request = api.project_budget.create(project);
    if let Some(year) = year {
        request.year(year);
    }
    if let Some(amount) = amount {
        request.amount(amount);
    }
    request.send()
}

/// The change that `project-budget modify` sends.
pub fn modify(api: &Api, id: u32, amount: Option<u32>, force: bool) -> (r: Request<
    ProjectBudgetModifyData,
>)
    ensures
        r.method == Method::Patch,
        r.url@ == item_url(api.project_budget.url@, id) + seq!['/'],
        r.data == Some(ProjectBudgetModifyData { id, amount, force }),
        r.expected_status == OK,
{
    let mut request = api.project_budget.modify(id);
    if let Some(amount) = amount {
        request.amount(amount);
    }
    if force {
        request.force();
    }
    request.send()
}

/// `DELETE` of the project budget with this id.
pub fn delete(api: &Api, id: u32) -> (r: Request<NoBody>)
    ensures
        is_delete(r, item_url(api.project_budget.url@, id) + seq!['/']),
{
    api.project_budget.delete(id)
}

/// `project-budget list` asks for one user's budgets when a user is given, else one project's,
/// else all, else the default set; a year given is asked for last, and no year is asked
/// for when none is given.
pub proof fn lemma_list_query(f: ProjectBudgetListFilter)
    ensures
        list_pairs(f).len() == (if f.user is Some || f.project is Some || f.all { 1int } else { 0int })
            + (if f.year is Some { 1int } else { 0int }),
        f.user matches Some(u) ==> list_pairs(f)[0] == ("user"@, dec(u as nat)),
        (f.user is None && f.project is Some) ==> list_pairs(f)[0] == (
            "project"@,
            dec(f.project->0 as nat),
        ),
        (f.user is None && f.project is None && f.all) ==> list_pairs(f)[0] == ("all"@, "1"@),
        f.year matches Some(y) ==> list_pairs(f).last() == ("year"@, dec(y as nat)),
        f.year is None ==> forall|i: int| 0 <= i < list_pairs(f).len() ==> list_pairs(f)[i].0 != "year"@,
{
    reveal_strlit("year");
    reveal_strlit("user");
    reveal_strlit("project");
    reveal_strlit("all");
    if f.year is None && list_pairs(f).len() > 0 {
        assert(list_pairs(f)[0].0[0] != "year"@[0]);
    }
}

} // verus!
