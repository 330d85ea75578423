//! Request planning and response handling for the LRZ Compute Cloud API: every
//! endpoint's URL, query, method, body and expected status, checked answers, and the
//! decisions of the command line client.
pub mod accounting;
pub mod budgeting;
pub mod cli;
pub mod common;
pub mod datetime;
pub mod error;
pub mod hello;
pub mod pricing;
pub mod quota;
pub mod resources;
pub mod text;
pub mod token;
pub mod user;

use crate::accounting::server_consumption::ServerConsumptionApi;
use crate::accounting::server_cost::ServerCostApi;
use crate::accounting::server_state::ServerStateApi;
use crate::budgeting::budget_bulk_create::BudgetBulkCreateApi;
use crate::budgeting::budget_over_tree::BudgetOverTreeApi;
use crate::budgeting::project_budget::ProjectBudgetApi;
use crate::budgeting::user_budget::UserBudgetApi;
use crate::common::{pairs_view, push_pair};
use crate::error::ApiError;
use crate::hello::HelloApi;
use crate::pricing::FlavorPriceApi;
use crate::quota::flavor_quota::FlavorQuotaApi;
use crate::resources::flavor::FlavorApi;
use crate::resources::flavor_group::FlavorGroupApi;
use crate::resources::usage::UsageApi;
use crate::text::{all_digits, dec, lemma_dec_digits, u32_to_string};
use crate::token::Token;
use crate::user::project::ProjectApi;
use crate::user::user::UserApi;
use vstd::prelude::*;
use vstd::utf8::{encode_utf8, is_ascii_chars, is_ascii_chars_encode_utf8};

verus! {

/// The seconds a request may take when no timeout is given.
pub const DEFAULT_TIMEOUT: u64 = 300;

#[verifier::external_type_specification]
#[verifier::external_body]
pub struct ExHeaderValue(reqwest::header::HeaderValue);

/// The bytes a header value may hold: visible ASCII, space, tab and every byte from 128.
pub open spec fn header_byte_ok(b: u8) -> bool {
    (b >= 32 && b != 127) || b == 9
}

/// Whether a text may stand as a header value, byte by byte of its UTF-8.
pub open spec fn header_text_ok(s: Seq<char>) -> bool {
    forall|i: int| 0 <= i < encode_utf8(s).len() ==> header_byte_ok(#[trigger] encode_utf8(s)[i])
}

/// Calls `reqwest::header::HeaderValue::from_str`, which accepts a text exactly when every
/// byte of it is a tab or at least 32 and not 127.
#[verifier::external_body]
fn header_value(s: &str) -> (r: Option<reqwest::header::HeaderValue>)
    ensures
        r is Some <==> header_text_ok(s@),
{
    reqwest::header::HeaderValue::from_str(s).ok()
}

/// Decimal renderings may stand as header values.
pub proof fn lemma_dec_header_ok(n: nat)
    ensures
        header_text_ok(dec(n)),
{
    lemma_dec_digits(n);
    let s = dec(n);
    assert(is_ascii_chars(s));
    is_ascii_chars_encode_utf8(s);
    assert forall|i: int| 0 <= i < encode_utf8(s).len() implies header_byte_ok(
        #[trigger] encode_utf8(s)[i],
    ) by {
        assert('0' <= s[i] <= '9');
        assert(s[i] as u8 == encode_utf8(s)[i]);
    }
}

/// The headers every request carries: JSON content, the token, and, when given, the id
/// of the user to act as.
pub open spec fn default_headers(token: Seq<char>, impersonate: Option<u32>) -> Seq<
    (Seq<char>, Seq<char>),
> {
    seq![("content-type"@, "application/json"@), ("X-Auth-Token"@, token)] + match impersonate {
        Some(i) => seq![("X-Impersonate"@, dec(i as nat))],
        None => Seq::empty(),
    }
}

/// A client of the API: its headers and timeout, and the endpoints under its base URL.
pub struct Api {
    pub token: Token,
    pub headers: Vec<(String, String)>,
    pub timeout: u64,
    pub hello: HelloApi,
    pub project: ProjectApi,
    pub user: UserApi,
    pub flavor: FlavorApi,
    pub flavor_group: FlavorGroupApi,
    pub usage: UsageApi,
    pub flavor_price: FlavorPriceApi,
    pub flavor_quota: FlavorQuotaApi,
    pub server_state: ServerStateApi,
    pub server_cost: ServerCostApi,
    pub server_consumption: ServerConsumptionApi,
    pub project_budget: ProjectBudgetApi,
    pub user_budget: UserBudgetApi,
    pub budget_over_tree: BudgetOverTreeApi,
    pub budget_bulk_create: BudgetBulkCreateApi,
}

/// Every endpoint of `api` sits under `url`.
pub open spec fn endpoints_under(api: Api, url: Seq<char>) -> bool {
    &&& api.hello.url@ == url + "/hello"@
    &&& api.project.url@ == url + "/user/projects"@
    &&& api.user.url@ == url + "/user/users"@
    &&& api.flavor.url@ == url + "/resources/flavors"@
    &&& api.flavor_group.url@ == url + "/resources/flavorgroups"@
    &&& api.usage.url@ == url + "/resources/usage"@
    &&& api.flavor_price.url@ == url + "/pricing/flavorprices"@
    &&& api.flavor_quota.url@ == url + "/quota/flavorquotas"@
    &&& api.server_state.url@ == url + "/accounting/serverstates"@
    &&& api.server_cost.url@ == url + "/accounting/servercost/"@
    &&& api.server_consumption.url@ == url + "/accounting/serverconsumption/"@
    &&& api.project_budget.url@ == url + "/budgeting/projectbudgets"@
    &&& api.user_budget.url@ == url + "/budgeting/userbudgets"@
    &&& api.budget_over_tree.url@ == url + "/budgeting/budgetovertree/"@
    &&& api.budget_bulk_create.url@ == url + "/budgeting/budgetbulkcreate/"@
}

impl Api {
    /// A client for the API at `url` with `token`, acting as `impersonate` when given,
    /// with requests taking at most `timeout` seconds (300 when not given). A token that
    /// cannot stand as a header value gives
    /// `UnexpectedError("Failed to create token header value")`.
    pub fn new(url: String, token: Token, impersonate: Option<u32>, timeout: Option<u64>) -> (r:
        Result<Api, ApiError>)
        ensures
            r is Ok <==> header_text_ok(token.token@),
            r matches Err(e) ==> (e matches ApiError::UnexpectedError(m)
                && m@ == "Failed to create token header value"@),
            r matches Ok(api) ==> {
                &&& api.token == token
                &&& pairs_view(api.headers@) == default_headers(token.token@, impersonate)
                &&& api.timeout == match timeout {
                    Some(t) => t,
                    None => DEFAULT_TIMEOUT,
                }
                &&& endpoints_under(api, url@)
            },
    {
        let mut headers: Vec<(String, String)> = Vec::new();
        assert(pairs_view(headers@) =~= Seq::empty());
        push_pair(&mut headers, "content-type", "application/json".to_owned());
        if header_value(token.as_ref()).is_none() {
            return Err(ApiError::UnexpectedError("Failed to create token header value".to_owned()));
        }
        push_pair(&mut headers, "X-Auth-Token", token.token.clone());
        if let Some(impersonate) = impersonate {
            let text = u32_to_string(impersonate);
            proof {
                lemma_dec_header_ok(impersonate as nat);
            }
            if header_value(text.as_str()).is_none() {
                return Err(
                    ApiError::UnexpectedError("Failed to create impersonate header value".to_owned()),
                );
            }
            push_pair(&mut headers, "X-Impersonate", text);
        }
        assert(pairs_view(headers@) =~= default_headers(token.token@, impersonate));
        let timeout = match timeout {
            Some(timeout) => timeout,
            None => DEFAULT_TIMEOUT,
        };
        let base = url.as_str();
        Ok(Api {
            hello: HelloApi::new(base),
            project: ProjectApi::new(base),
            user: UserApi::new(base),
            flavor: FlavorApi::new(base),
            flavor_group: FlavorGroupApi::new(base),
            usage: UsageApi::new(base),
            flavor_price: FlavorPriceApi::new(base),
            flavor_quota: FlavorQuotaApi::new(base),
            server_state: ServerStateApi::new(base),
            server_cost: ServerCostApi::new(base),
            server_consumption: ServerConsumptionApi::new(base),
            project_budget: ProjectBudgetApi::new(base),
            user_budget: UserBudgetApi::new(base),
            budget_over_tree: BudgetOverTreeApi::new(base),
            budget_bulk_create: BudgetBulkCreateApi::new(base),
            token,
            headers,
            timeout,
        })
    }
}

} // verus!
