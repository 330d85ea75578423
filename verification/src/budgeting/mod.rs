//! Budgets of projects and users, and the reports on them.
pub mod budget_bulk_create;
pub mod budget_over_tree;
pub mod project_budget;
pub mod user_budget;
