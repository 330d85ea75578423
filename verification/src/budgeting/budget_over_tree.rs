//! The tree of budgets over their limits.
use crate::common::{
    get_with_params, join, opt_u32_pair, pairs_view, planned_get, push_pair, push_u32, ApiError,
    NoBody, Request,
};
use crate::datetime::DateTime;
use crate::text::dec;
use vstd::prelude::*;

verus! {

/// A budget-over tree to ask for.
pub struct BudgetOverTreeRequest {
    pub url: String,
    pub all: bool,
    pub project: Option<u32>,
    pub user: Option<u32>,
    pub end: Option<DateTime>,
}

impl BudgetOverTreeRequest {
    pub fn new(url: &str) -> (r: Self)
        ensures
            r.url@ == url@,
            !r.all && r.project is None && r.user is None && r.end is None,
    {
        BudgetOverTreeRequest { url: url.to_owned(), all: false, project: None, user: None, end: None }
    }

    /// The query: the widest scope given (everything, else a project, else a user), then
    /// the end in its `Display` form.
    pub open spec fn pairs(self) -> Seq<(Seq<char>, Seq<char>)> {
        (if self.all {
            seq![("all"@, "1"@)]
        } else if self.project is Some {
            opt_u32_pair("project"@, self.project)
        } else {
            opt_u32_pair("user"@, self.user)
        }) + match self.end {
            Some(e) => seq![("end"@, e.display())],
            None => Seq::empty(),
        }
    }

    fn params(&self) -> (r: Vec<(String, String)>)
        ensures
            pairs_view(r@) == self.pairs(),
    {
        let mut v: Vec<(String, String)> = Vec::new();
        assert(pairs_view(v@) =~= Seq::empty());
        if self.all {
            push_pair(&mut v, "all", "1".to_owned());
        } else if self.project.is_some() {
            push_u32(&mut v, "project", self.project);
        } else {
            push_u32(&mut v, "user", self.user);
        }
        match &self.end {
            Some(e) => push_pair(&mut v, "end", e.to_display()),
            None => {},
        }
        assert(pairs_view(v@) =~= self.pairs());
        v
    }

    /// `GET` of the tree URL, parsed, with the query appended.
    pub fn send(&self) -> (r: Result<Request<NoBody>, ApiError>)
        ensures
            planned_get(r, self.url@, self.pairs()),
    {
        get_with_params(self.url.as_str(), &self.params())
    }

    pub fn all(&mut self) -> (r: &mut Self)
        ensures
            *r == (BudgetOverTreeRequest { all: true, ..*old(self) }),
            *final(self) == *final(r),
    {
        self.all = true;
        self
    }

    pub fn project(&mut self, project: u32) -> (r: &mut Self)
        ensures
            *r == (BudgetOverTreeRequest { project: Some(project), ..*old(self) }),
            *final(self) == *final(r),
    {
        self.project = Some(project);
        self
    }

    pub fn user(&mut self, user: u32) -> (r: &mut Self)
        ensures
            *r == (BudgetOverTreeRequest { user: Some(user), ..*old(self) }),
            *final(self) == *final(r),
    {
        self.user = Some(user);
        self
    }

    pub fn end(&mut self, end: DateTime) -> (r: &mut Self)
        ensures
            *r == (BudgetOverTreeRequest { end: Some(end), ..*old(self) }),
            *final(self) == *final(r),
    {
        self.end = Some(end);
        self
    }
}

/// The budget-over tree endpoint `/budgeting/budgetovertree/`.
pub struct BudgetOverTreeApi {
    pub url: String,
}

impl BudgetOverTreeApi {
    pub fn new(base_url: &str) -> (r: BudgetOverTreeApi)
        ensures
            r.url@ == base_url@ + "/budgeting/budgetovertree/"@,
    {
        BudgetOverTreeApi { url: join(base_url, "/budgeting/budgetovertree/") }
    }

    /// A tree request, without scope yet.
    pub fn get(&self) -> (r: BudgetOverTreeRequest)
        ensures
            r.url@ == self.url@,
            !r.all && r.project is None && r.user is None && r.end is None,
    {
        BudgetOverTreeRequest::new(self.url.as_str())
    }
}

/// A budget-over tree asks for the widest scope given (everything, else a project, else a
/// user) and then, when an end is set, for that end in its `Display` form; nothing else.
pub proof fn lemma_tree_query(r: BudgetOverTreeRequest)
    ensures
        ({
            let ps = r.pairs();
            let ns: int = if r.all || r.project is Some || r.user is Some { 1 } else { 0 };
            &&& ps.len() == ns + (if r.end is Some { 1int } else { 0int })
            &&& (r.all ==> ps[0] == ("all"@, "1"@))
            &&& ((!r.all && r.project is Some) ==> ps[0] == ("project"@, dec(r.project->0 as nat)))
            &&& ((!r.all && r.project is None && r.user is Some) ==> ps[0] == (
                "user"@,
                dec(r.user->0 as nat),
            ))
            &&& (r.end matches Some(e) ==> ps.last() == ("end"@, e.display()))
        }),
{
}

} // verus!
