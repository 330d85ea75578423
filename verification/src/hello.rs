//! The greeting endpoints, for checking access.
use crate::common::{bare, join, Method, NoBody, Request, OK};
use vstd::prelude::*;

verus! {

/// The greeting the API answers with.
#[derive(Debug, Clone)]
pub struct Hello {
    pub message: String,
}

impl Hello {
    /// The text this greeting shows: its message.
    pub fn to_string(&self) -> (r: String)
        ensures
            r@ == self.message@,
    {
        self.message.clone()
    }
}

/// The greeting endpoints under `/hello`.
pub struct HelloApi {
    pub url: String,
}

impl HelloApi {
    pub fn new(base_url: &str) -> (r: HelloApi)
        ensures
            r.url@ == base_url@ + "/hello"@,
    {
        HelloApi { url: join(base_url, "/hello") }
    }

    /// `GET /hello/admin`, answered for administrators only.
    pub fn admin(&self) -> (r: Request<NoBody>)
        ensures
            r.method == Method::Get,
            r.url@ == self.url@ + "/admin"@,
            r.data is None,
            r.expected_status == OK,
    {
        bare(Method::Get, join(self.url.as_str(), "/admin"), OK)
    }

    /// `GET /hello`.
    pub fn user(&self) -> (r: Request<NoBody>)
        ensures
            r.method == Method::Get,
            r.url@ == self.url@,
            r.data is None,
            r.expected_status == OK,
    {
        bare(Method::Get, self.url.clone(), OK)
    }
}

} // verus!
