//! Creating the budgets of a year for everyone at once.
use crate::common::{join, with_data, Method, Request, OK};
use vstd::prelude::*;

verus! {

/// The body of a bulk creation: the year.
#[derive(Debug, Clone, Copy, PartialEq, Eq, Structural)]
pub struct BudgetBulkCreateData {
    pub year: i32,
}

/// How many budgets a bulk creation made.
#[derive(Debug, Clone, Copy)]
pub struct BudgetBulkCreate {
    pub new_user_budget_count: u32,
    pub new_project_budget_count: u32,
}

/// The bulk creation endpoint `/budgeting/budgetbulkcreate/`.
pub struct BudgetBulkCreateApi {
    pub url: String,
}

impl BudgetBulkCreateApi {
    pub fn new(base_url: &str) -> (r: BudgetBulkCreateApi)
        ensures
            r.url@ == base_url@ + "/budgeting/budgetbulkcreate/"@,
    {
        BudgetBulkCreateApi { url: join(base_url, "/budgeting/budgetbulkcreate/") }
    }

    /// `POST` of the year, answered with `200 OK`.
    pub fn run(&self, year: i32) -> (r: Request<BudgetBulkCreateData>)
        ensures
            r.method == Method::Post,
            r.url@ == self.url@,
            r.data == Some(BudgetBulkCreateData { year }),
            r.expected_status == OK,
    {
        with_data(Method::Post, self.url.clone(), BudgetBulkCreateData { year }, OK)
    }
}

} // verus!
