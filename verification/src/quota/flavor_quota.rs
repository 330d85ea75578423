//! Flavor quotas: listing, reading, creating, changing, deleting and checking them.
use crate::common::{
    delete_item, get_item, get_with_params, get_with_query, item_url, join, join_id_slash,
    join_slash, opt_bool_pair, opt_u32_pair, pairs_view, planned_get, push_bool, push_pair,
    push_u32, with_data, with_query, ApiError, Method, NoBody, Request, CREATED, NO_CONTENT, OK,
};
use crate::text::{dec, u32_to_string};
use vstd::prelude::*;

verus! {

/// The quota of one user on one flavor group.
#[derive(Debug, Clone)]
pub struct FlavorQuota {
    pub id: u32,
    pub user: u32,
    pub username: String,
    pub quota: i64,
    pub flavor_group: u32,
    pub flavor_group_name: String,
}

impl FlavorQuota {
    /// `FlavorQuota(id=<id>, user=<user>, flavor_group=<group>)`.
    pub fn to_string(&self) -> (r: String)
        ensures
            r@ == "FlavorQuota(id="@ + dec(self.id as nat) + ", user="@ + dec(self.user as nat)
                + ", flavor_group="@ + dec(self.flavor_group as nat) + ")"@,
    {
        let mut s = "FlavorQuota(id=".to_owned();
        s.append(u32_to_string(self.id).as_str());
        s.append(", user=");
        s.append(u32_to_string(self.user).as_str());
        s.append(", flavor_group=");
        s.append(u32_to_string(self.flavor_group).as_str());
        s.append(")");
        s
    }
}

/// The filters of a flavor quota listing.
#[derive(Debug, Clone, Copy, PartialEq, Eq, Structural)]
pub struct FlavorQuotaListParams {
    pub all: Option<bool>,
    pub group: Option<u32>,
    pub user: Option<u32>,
}

impl FlavorQuotaListParams {
    /// The query pairs, in field order, without absent fields.
    pub open spec fn pairs(self) -> Seq<(Seq<char>, Seq<char>)> {
        opt_bool_pair("all"@, self.all) + opt_u32_pair("group"@, self.group) + opt_u32_pair(
            "user"@,
            self.user,
        )
    }

    pub fn to_pairs(&self) -> (r: Vec<(String, String)>)
        ensures
            pairs_view(r@) == self.pairs(),
    {
        let mut v: Vec<(String, String)> = Vec::new();
        assert(pairs_view(v@) =~= Seq::empty());
        push_bool(&mut v, "all", self.all);
        push_u32(&mut v, "group", self.group);
        push_u32(&mut v, "user", self.user);
        assert(pairs_view(v@) =~= self.pairs());
        v
    }
}

/// A flavor quota listing to send.
pub struct FlavorQuotaListRequest {
    pub url: String,
    pub params: FlavorQuotaListParams,
}

impl FlavorQuotaListRequest {
    pub fn new(url: &str) -> (r: Self)
        ensures
            r.url@ == url@,
            r.params == (FlavorQuotaListParams { all: None, group: None, user: None }),
    {
        FlavorQuotaListRequest {
            url: url.to_owned(),
            params: FlavorQuotaListParams { all: None, group: None, user: None },
        }
    }

    /// `GET` of the listing URL with the filters as query.
    pub fn send(&self) -> (r: Request<NoBody>)
        ensures
            r.method == Method::Get,
            r.url@ == with_query(self.url@, self.params.pairs()),
            r.data is None,
            r.expected_status == OK,
    {
        let pairs = self.params.to_pairs();
        get_with_query(self.url.as_str(), &pairs)
    }

    pub fn all(&mut self) -> (r: &mut Self)
        ensures
            r.url == old(self).url,
            r.params == (FlavorQuotaListParams { all: Some(true), ..old(self).params }),
            *final(self) == *final(r),
    {
        self.params.all = Some(true);
        self
    }

    pub fn group(&mut self, group: u32) -> (r: &mut Self)
        ensures
            r.url == old(self).url,
            r.params == (FlavorQuotaListParams { group: Some(group), ..old(self).params }),
            *final(self) == *final(r),
    {
        self.params.group = Some(group);
        self
    }

    pub fn user(&mut self, user: u32) -> (r: &mut Self)
        ensures
            r.url == old(self).url,
            r.params == (FlavorQuotaListParams { user: Some(user), ..old(self).params }),
            *final(self) == *final(r),
    {
        self.params.user = Some(user);
        self
    }
}

/// The body of a flavor quota creation; without a given quota it is `-1`, unlimited.
#[derive(Debug, Clone, Copy, PartialEq, Eq, Structural)]
pub struct FlavorQuotaCreateData {
    pub flavor_group: u32,
    pub user: u32,
    pub quota: i64,
}

impl FlavorQuotaCreateData {
    pub fn new(flavor_group: u32, user: u32) -> (r: Self)
        ensures
            r == (FlavorQuotaCreateData { flavor_group, user, quota: -1i64 }),
    {
        FlavorQuotaCreateData { flavor_group, user, quota: -1 }
    }
}

/// A flavor quota creation to send.
pub struct FlavorQuotaCreateRequest {
    pub url: String,
    pub data: FlavorQuotaCreateData,
}

impl FlavorQuotaCreateRequest {
    pub fn new(url: &str, flavor_group: u32, user: u32) -> (r: Self)
        ensures
            r.url@ == url@,
            r.data == (FlavorQuotaCreateData { flavor_group, user, quota: -1i64 }),
    {
        FlavorQuotaCreateRequest { url: url.to_owned(), data: FlavorQuotaCreateData::new(flavor_group, user) }
    }

    pub fn quota(&mut self, quota: i64) -> (r: &mut Self)
        ensures
            r.url == old(self).url,
            r.data == (FlavorQuotaCreateData { quota, ..old(self).data }),
            *final(self) == *final(r),
    {
        self.data.quota = quota;
        self
    }

    /// `POST` of the data, answered with `201 Created`.
    pub fn send(&self) -> (r: Request<FlavorQuotaCreateData>)
        ensures
            r.method == Method::Post,
            r.url@ == self.url@,
            r.data == Some(self.data),
            r.expected_status == CREATED,
    {
        with_data(Method::Post, self.url.clone(), self.data, CREATED)
    }
}

/// The body of a flavor quota change: its id and the fields to change.
#[derive(Debug, Clone, Copy, PartialEq, Eq, Structural)]
pub struct FlavorQuotaModifyData {
    pub id: u32,
    pub user: Option<u32>,
    pub quota: Option<i64>,
    pub flavor_group: Option<u32>,
}

impl FlavorQuotaModifyData {
    pub fn new(id: u32) -> (r: Self)
        ensures
            r == (FlavorQuotaModifyData { id, user: None, quota: None, flavor_group: None }),
    {
        FlavorQuotaModifyData { id, user: None, quota: None, flavor_group: None }
    }
}

/// A flavor quota change to send.
pub struct FlavorQuotaModifyRequest {
    pub url: String,
    pub data: FlavorQuotaModifyData,
}

impl FlavorQuotaModifyRequest {
    pub fn new(url: &str, id: u32) -> (r: Self)
        ensures
            r.url@ == url@,
            r.data == (FlavorQuotaModifyData { id, user: None, quota: None, flavor_group: None }),
    {
        FlavorQuotaModifyRequest { url: url.to_owned(), data: FlavorQuotaModifyData::new(id) }
    }

    pub fn user(&mut self, user: u32) -> (r: &mut Self)
        ensures
            r.url == old(self).url,
            r.data == (FlavorQuotaModifyData { user: Some(user), ..old(self).data }),
            *final(self) == *final(r),
    {
        self.data.user = Some(user);
        self
    }

    pub fn quota(&mut self, quota: i64) -> (r: &mut Self)
        ensures
            r.url == old(self).url,
            r.data == (FlavorQuotaModifyData { quota: Some(quota), ..old(self).data }),
            *final(self) == *final(r),
    {
        self.data.quota = Some(quota);
        self
    }

    pub fn flavor_group(&mut self, flavor_group: u32) -> (r: &mut Self)
        ensures
            r.url == old(self).url,
            r.data == (FlavorQuotaModifyData { flavor_group: Some(flavor_group), ..old(self).data }),
            *final(self) == *final(r),
    {
        self.data.flavor_group = Some(flavor_group);
        self
    }

    /// `PATCH` of the data, answered with `200 OK`.
    pub fn send(&self) -> (r: Request<FlavorQuotaModifyData>)
        ensures
            r.method == Method::Patch,
            r.url@ == self.url@,
            r.data == Some(self.data),
            r.expected_status == OK,
    {
        with_data(Method::Patch, self.url.clone(), self.data, OK)
    }
}

/// A check whether a user may start more servers of a flavor.
pub struct FlavorQuotaCheckRequest {
    pub url: String,
    pub user: u32,
    pub flavor: u32,
    pub count: Option<u32>,
}

impl FlavorQuotaCheckRequest {
    /// The query of this check: user, flavor, and the count as `flavorcount` when given.
    pub open spec fn pairs(self) -> Seq<(Seq<char>, Seq<char>)> {
        seq![("user"@, dec(self.user as nat)), ("flavor"@, dec(self.flavor as nat))]
            + opt_u32_pair("flavorcount"@, self.count)
    }

    /// The check for `user` and `flavor`, sent to `<url>/check/`.
    pub fn new(url: &str, user: u32, flavor: u32) -> (r: Self)
        ensures
            r.url@ == url@ + "/check/"@,
            r.user == user && r.flavor == flavor && r.count is None,
    {
        FlavorQuotaCheckRequest { url: join(url, "/check/"), user, flavor, count: None }
    }

    pub fn count(&mut self, count: u32) -> (r: &mut Self)
        ensures
            r.url == old(self).url,
            r.user == old(self).user && r.flavor == old(self).flavor,
            r.count == Some(count),
            *final(self) == *final(r),
    {
        self.count = Some(count);
        self
    }

    fn params(&self) -> (r: Vec<(String, String)>)
        ensures
            pairs_view(r@) == self.pairs(),
    {
        let mut v: Vec<(String, String)> = Vec::new();
        assert(pairs_view(v@) =~= Seq::empty());
        push_pair(&mut v, "user", u32_to_string(self.user));
        push_pair(&mut v, "flavor", u32_to_string(self.flavor));
        push_u32(&mut v, "flavorcount", self.count);
        assert(pairs_view(v@) =~= self.pairs());
        v
    }

    /// `GET` of the check URL, parsed, with the query appended.
    pub fn send(&self) -> (r: Result<Request<NoBody>, ApiError>)
        ensures
            planned_get(r, self.url@, self.pairs()),
    {
        get_with_params(self.url.as_str(), &self.params())
    }
}

/// The flavor quota endpoints under `/quota/flavorquotas`.
pub struct FlavorQuotaApi {
    pub url: String,
}

impl FlavorQuotaApi {
    pub fn new(base_url: &str) -> (r: FlavorQuotaApi)
        ensures
            r.url@ == base_url@ + "/quota/flavorquotas"@,
    {
        FlavorQuotaApi { url: join(base_url, "/quota/flavorquotas") }
    }

    pub fn list(&self) -> (r: FlavorQuotaListRequest)
        ensures
            r.url@ == self.url@,
            r.params == (FlavorQuotaListParams { all: None, group: None, user: None }),
    {
        FlavorQuotaListRequest::new(self.url.as_str())
    }

    /// `GET <url>/<id>`.
    pub fn get(&self, id: u32) -> (r: Request<NoBody>)
        ensures
            r.method == Method::Get,
            r.url@ == item_url(self.url@, id),
            r.data is None,
            r.expected_status == OK,
    {
        get_item(self.url.as_str(), id)
    }

    /// A creation, sent to `<url>/`.
    pub fn create(&self, flavor_group: u32, user: u32) -> (r: FlavorQuotaCreateRequest)
        ensures
            r.url@ == self.url@ + seq!['/'],
            r.data == (FlavorQuotaCreateData { flavor_group, user, quota: -1i64 }),
    {
        let url = join_slash(self.url.as_str());
        FlavorQuotaCreateRequest::new(url.as_str(), flavor_group, user)
    }

    /// A change, sent to `<url>/<id>/`.
    pub fn modify(&self, id: u32) -> (r: FlavorQuotaModifyRequest)
        ensures
            r.url@ == item_url(self.url@, id) + seq!['/'],
            r.data == (FlavorQuotaModifyData { id, user: None, quota: None, flavor_group: None }),
    {
        let url = join_id_slash(self.url.as_str(), id);
        FlavorQuotaModifyRequest::new(url.as_str(), id)
    }

    /// `DELETE <url>/<id>/`, answered with `204 No Content`.
    pub fn delete(&self, id: u32) -> (r: Request<NoBody>)
        ensures
            r.method == Method::Delete,
            r.url@ == item_url(self.url@, id) + seq!['/'],
            r.data is None,
            r.expected_status == NO_CONTENT,
    {
        delete_item(self.url.as_str(), id)
    }

    /// A check whether `user` may start a server of `flavor`.
    pub fn check(&self, user: u32, flavor: u32) -> (r: FlavorQuotaCheckRequest)
        ensures
            r.url@ == self.url@ + "/check/"@,
            r.user == user && r.flavor == flavor && r.count is None,
    {
        FlavorQuotaCheckRequest::new(self.url.as_str(), user, flavor)
    }
}

/// The query of a flavor quota listing holds exactly the filters set, one pair each, in field order.
pub proof fn lemma_flavorquotalistparams_query(p: FlavorQuotaListParams)
    ensures
        p.pairs().len() == crate::common::present(p.all) + crate::common::present(p.group) + crate::common::present(p.user),
        p.all matches Some(v) ==> p.pairs()[0] == ("all"@, crate::common::bool_text(v)),
        p.group matches Some(v) ==> p.pairs()[crate::common::present(p.all)] == ("group"@, crate::text::dec(v as nat)),
        p.user matches Some(v) ==> p.pairs()[crate::common::present(p.all) + crate::common::present(p.group)] == ("user"@, crate::text::dec(v as nat)),
{
}

/// A quota check asks for the user and the flavor, then for the count when given.
pub proof fn lemma_check_query(r: FlavorQuotaCheckRequest)
    ensures
        r.pairs().len() == 2 + crate::common::present(r.count),
        r.pairs()[0] == ("user"@, dec(r.user as nat)),
        r.pairs()[1] == ("flavor"@, dec(r.flavor as nat)),
        r.count matches Some(c) ==> r.pairs()[2] == ("flavorcount"@, dec(c as nat)),
{
}

} // verus!
