//! The greeting commands: which request each sends.
use crate::cli::is_get;
use crate::common::{NoBody, Request};
use crate::Api;
use vstd::prelude::*;

verus! {

/// The greeting that `hello admin` asks for.
pub fn admin(api: &Api) -> (r: Request<NoBody>)
    ensures
        is_get(r, api.hello.url@ + "/admin"@),
{
    api.hello.admin()
}

/// The greeting that `hello user` asks for.
pub fn user(api: &Api) -> (r: Request<NoBody>)
    ensures
        is_get(r, api.hello.url@),
{
    api.hello.user()
}

} // verus!
