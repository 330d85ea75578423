//! The cloud usage overview.
use crate::common::{bare, join, Method, NoBody, Request, OK};
use vstd::prelude::*;

verus! {

/// Total and used amount of one resource.
#[derive(Debug, Clone, Copy)]
pub struct CloudUsageOverviewInner {
    pub total: u64,
    pub used: u64,
}

/// Free and total slots of one flavor.
#[derive(Debug, Clone)]
pub struct CloudUsageFlavorSlot {
    pub name: String,
    pub free: u32,
    pub total: u32,
}

/// The flavor slots of one group of flavors.
#[derive(Debug, Clone)]
pub struct CloudUsageAggregate {
    pub name: String,
    pub title: String,
    pub flavors: Vec<CloudUsageFlavorSlot>,
}

/// The usage endpoint `/resources/usage`.
pub struct UsageApi {
    pub url: String,
}

impl UsageApi {
    pub fn new(base_url: &str) -> (r: UsageApi)
        ensures
            r.url@ == base_url@ + "/resources/usage"@,
    {
        UsageApi { url: join(base_url, "/resources/usage") }
    }

    /// `GET` of the usage overview.
    pub fn get(&self) -> (r: Request<NoBody>)
        ensures
            r.method == Method::Get,
            r.url@ == self.url@,
            r.data is None,
            r.expected_status == OK,
    {
        bare(Method::Get, self.url.clone(), OK)
    }
}

} // verus!
