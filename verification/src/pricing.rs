//! Flavor prices: the endpoints that carry no prices themselves.
use crate::common::{
    bare, delete_item, get_item, get_suffix, item_url, join, url_parse, ApiError, Method, NoBody,
    Request, NO_CONTENT, OK,
};
use vstd::prelude::*;

verus! {

/// How many prices an initialization created.
#[derive(Debug, Clone, Copy)]
pub struct FlavorPriceInitialize {
    pub new_flavor_price_count: u32,
}

/// Calls `reqwest::Url::parse` and takes the serialization of the parsed URL.
#[verifier::external_body]
fn parse_url(s: &str) -> (r: Option<String>)
    ensures
        r matches Some(u) ==> url_parse(s@) == Some(u@),
        r is None ==> url_parse(s@) is None,
{
    reqwest::Url::parse(s).ok().map(String::from)
}

/// A price listing to send.
pub struct FlavorPriceListRequest {
    pub url: String,
}

impl FlavorPriceListRequest {
    pub fn new(url: &str) -> (r: Self)
        ensures
            r.url@ == url@,
    {
        FlavorPriceListRequest { url: url.to_owned() }
    }

    /// `GET` of the listing URL as the URL parser writes it; a URL it rejects gives
    /// `UnexpectedError("Could not parse URL GET parameters.")`.
    pub fn send(&self) -> (r: Result<Request<NoBody>, ApiError>)
        ensures
            r is Ok <==> url_parse(self.url@) is Some,
            r matches Ok(q) ==> q.method == Method::Get && q.url@ == url_parse(self.url@)->0
                && q.data is None && q.expected_status == OK,
            r matches Err(e) ==> (e matches ApiError::UnexpectedError(m)
                && m@ == "Could not parse URL GET parameters."@),
    {
        match parse_url(self.url.as_str()) {
            Some(u) => Ok(bare(Method::Get, u, OK)),
            None => Err(ApiError::UnexpectedError("Could not parse URL GET parameters.".to_owned())),
        }
    }
}

/// The flavor price endpoints under `/pricing/flavorprices`.
pub struct FlavorPriceApi {
    pub url: String,
}

impl FlavorPriceApi {
    pub fn new(base_url: &str) -> (r: FlavorPriceApi)
        ensures
            r.url@ == base_url@ + "/pricing/flavorprices"@,
    {
        FlavorPriceApi { url: join(base_url, "/pricing/flavorprices") }
    }

    pub fn list(&self) -> (r: FlavorPriceListRequest)
        ensures
            r.url@ == self.url@,
    {
        FlavorPriceListRequest::new(self.url.as_str())
    }

    /// `GET <url>/<id>`.
    pub fn get(&self, id: u32) -> (r: Request<NoBody>)
        ensures
            r.method == Method::Get,
            r.url@ == item_url(self.url@, id),
            r.data is None,
            r.expected_status == OK,
    {
        get_item(self.url.as_str(), id)
    }

    /// `DELETE <url>/<id>/`, answered with `204 No Content`.
    pub fn delete(&self, id: u32) -> (r: Request<NoBody>)
        ensures
            r.method == Method::Delete,
            r.url@ == item_url(self.url@, id) + seq!['/'],
            r.data is None,
            r.expected_status == NO_CONTENT,
    {
        delete_item(self.url.as_str(), id)
    }

    /// `GET <url>/initialize/`: creates the missing prices.
    pub fn initialize(&self) -> (r: Request<NoBody>)
        ensures
            r.method == Method::Get,
            r.url@ == self.url@ + "/initialize/"@,
            r.data is None,
            r.expected_status == OK,
    {
        get_suffix(self.url.as_str(), "/initialize/")
    }
}

} // verus!
