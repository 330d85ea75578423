//! The flavor price commands that carry no price: which request each sends.
use crate::cli::is_get;
use crate::common::{item_url, url_parse, ApiError, NoBody, Request};
use crate::Api;
use vstd::prelude::*;

verus! {

/// The listing that `flavor-price list` sends: the collection URL as the URL parser
/// writes it, or the error for a URL it rejects.
pub fn list(api: &Api) -> (r: Result<Request<NoBody>, ApiError>)
    ensures
        r is Ok <==> url_parse(api.flavor_price.url@) is Some,
        r matches Ok(q) ==> is_get(q, url_parse(api.flavor_price.url@)->0),
        r matches Err(e) ==> (e matches ApiError::UnexpectedError(m)
            && m@ == "Could not parse URL GET parameters."@),
{
    api.flavor_price.list().send()
}

/// `GET` of the flavor price with this id.
pub fn get(api: &Api, id: u32) -> (r: Request<NoBody>)
    ensures
        is_get(r, item_url(api.flavor_price.url@, id)),
{
    api.flavor_price.get(id)
}

} // verus!
