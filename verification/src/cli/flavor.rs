//! The flavor commands: which request each sends, and the lookup of a flavor by name,
//! OpenStack id or id.
use crate::cli::{all_pair, is_delete, is_get, lookup_planned, push_all, text_matches, Lookup};
use crate::common::{
    form_char_plain, form_pairs, get_with_params, item_url, lemma_form_encode_plain, opt_u32_pair,
    pairs_view, planned_get, push_u32, ApiError, Method, NoBody, Request, CREATED, OK,
};
use crate::resources::flavor::{Flavor, FlavorCreateData, FlavorModifyData};
use crate::text::{dec, lemma_dec_digits, parse_u32, parse_u32_spec};
use crate::user::user::{parent_url, UserDetailed};
use crate::Api;
use vstd::prelude::*;

verus! {

/// Which flavors a listing shows: all of them, those of one group, or the default set.
pub struct FlavorListFilter {
    pub all: bool,
    pub group: Option<u32>,
}

/// The query a flavor listing sends: `all=1` for all flavors, else `flavorgroup=<g>` for
/// one group, else none.
pub open spec fn list_pairs(filter: FlavorListFilter) -> Seq<(Seq<char>, Seq<char>)> {
    if filter.all {
        all_pair()
    } else {
        opt_u32_pair("flavorgroup"@, filter.group)
    }
}

/// The listing that `flavor list` sends: `GET` of the flavor URL as the URL parser
/// writes it, with the query appended.
pub fn list(api: &Api, filter: &FlavorListFilter) -> (r: Result<Request<NoBody>, ApiError>)
    ensures
        planned_get(r, api.flavor.url@, list_pairs(*filter)),
{
    let mut pairs: Vec<(String, String)> = Vec::new();
    assert(pairs_view(pairs@) =~= Seq::empty());
    if filter.all {
        push_all(&mut pairs);
    } else {
        push_u32(&mut pairs, "flavorgroup", filter.group);
    }
    assert(pairs_view(pairs@) =~= list_pairs(*filter));
    get_with_params(api.flavor.url.as_str(), &pairs)
}

/// `flavor list --group <g>` sends the query `flavorgroup=<g>`, the id written in decimal.
pub proof fn lemma_group_listing_query(g: u32)
    ensures
        form_pairs(list_pairs(FlavorListFilter { all: false, group: Some(g) }))
            == "flavorgroup"@ + seq!['='] + dec(g as nat),
{
    reveal_strlit("flavorgroup");
    let key = "flavorgroup"@;
    assert forall|i: int| 0 <= i < key.len() implies form_char_plain(#[trigger] key[i]) by {}
    lemma_form_encode_plain(key);
    lemma_dec_digits(g as nat);
    lemma_form_encode_plain(dec(g as nat));
    let ps = list_pairs(FlavorListFilter { all: false, group: Some(g) });
    assert(ps =~= seq![(key, dec(g as nat))]);
}

/// `GET` of the flavor with this id.
pub fn get(api: &Api, id: u32) -> (r: Request<NoBody>)
    ensures
        is_get(r, item_url(api.flavor.url@, id)),
{
    api.flavor.get(id)
}

/// The creation that `flavor create` sends.
pub fn create(
    api: &Api,
    name: String,
    openstack_id: String,
    group: Option<u32>,
    weight: Option<u32>,
) -> (r: Request<FlavorCreateData>)
    ensures
        r.method == Method::Post,
        r.url@ == api.flavor.url@ + seq!['/'],
        r.data == Some(FlavorCreateData { name, openstack_id, group, weight }),
        r.expected_status == CREATED,
{
    let mut request = api.flavor.create(name, openstack_id);
    if let Some(group) = group {
        request.group(group);
    }
    if let Some(weight) = weight {
        request.weight(weight);
    }
    request.send()
}

/// The group change a command line asks for: into a group, out of its group, or none.
pub open spec fn group_change(group: Option<u32>, no_group: bool) -> Option<Option<u32>> {
    match group {
        Some(g) => Some(Some(g)),
        None => if no_group {
            Some(None)
        } else {
            None
        },
    }
}

/// The change that `flavor modify` sends; a group given wins over `no_group`.
pub fn modify(
    api: &Api,
    id: u32,
    name: Option<String>,
    openstack_id: Option<String>,
    group: Option<u32>,
    no_group: bool,
) -> (r: Request<FlavorModifyData>)
    ensures
        r.method == Method::Patch,
        r.url@ == item_url(api.flavor.url@, id) + seq!['/'],
        r.data == Some(
            FlavorModifyData {
                id,
                name,
                openstack_id,
                group: group_change(group, no_group),
                weight: None,
            },
        ),
        r.expected_status == OK,
{
    let mut request = api.flavor.modify(id);
    if let Some(name) = name {
        request.name(name);
    }
    if let Some(openstack_id) = openstack_id {
        request.openstack_id(openstack_id);
    }
    if let Some(group) = group {
        request.group(group);
    } else if no_group {
        request.no_group();
    }
    request.send()
}

/// `DELETE` of the flavor with this id.
pub fn delete(api: &Api, id: u32) -> (r: Request<NoBody>)
    ensures
        is_delete(r, item_url(api.flavor.url@, id) + seq!['/']),
{
    api.flavor.delete(id)
}

/// What the lookup of a flavor has been handed: nothing yet, one's own user, or the
/// flavors listed.
pub enum FlavorLookupEvent {
    Start,
    Me(UserDetailed),
    Listed(Vec<Flavor>),
}

/// Whether a flavor goes by `name`, as OpenStack id or as name.
pub open spec fn flavor_matches(f: Flavor, name: Seq<char>) -> bool {
    f.openstack_id@ == name || f.name@ == name
}

/// `i` is the first flavor of `fs` that goes by `name`.
pub open spec fn first_flavor_match(fs: Seq<Flavor>, name: Seq<char>, i: int) -> bool {
    &&& 0 <= i < fs.len()
    &&& flavor_matches(fs[i], name)
    &&& forall|j: int| 0 <= j < i ==> !flavor_matches(#[trigger] fs[j], name)
}

/// The query of the listing the lookup searches: all flavors for staff, the default set
/// otherwise.
pub open spec fn lookup_pairs(me: UserDetailed) -> Seq<(Seq<char>, Seq<char>)> {
    list_pairs(FlavorListFilter { all: me.is_staff, group: None })
}

/// `Could not find flavor with name or openstack ID: <name>`.
pub open spec fn flavor_missing(name: Seq<char>) -> Seq<char> {
    "Could not find flavor with name or openstack ID: "@ + name
}

/// One step of finding the id of the flavor that goes by `name_or_id`. A decimal number is
/// the id itself. Otherwise one's own user is fetched, then the flavors one may see
/// (all of them for staff), and the first that goes by the name as OpenStack id or
/// name gives the id.
pub fn find_id(api: &Api, name_or_id: &str, event: &FlavorLookupEvent) -> (r: Lookup)
    ensures
        event is Start ==> match parse_u32_spec(name_or_id@) {
            Some(id) => r == Lookup::Found(id),
            None => r matches Lookup::FetchMe(q) && is_get(q, parent_url(api.user.url@) + "/me"@),
        },
        event matches FlavorLookupEvent::Me(me) ==> lookup_planned(
            r,
            api.flavor.url@,
            lookup_pairs(*me),
        ),
        event matches FlavorLookupEvent::Listed(fs) ==> {
            ||| exists|i: int| first_flavor_match(fs@, name_or_id@, i) && r == Lookup::Found(fs@[i].id)
            ||| {
                &&& forall|i: int| 0 <= i < fs@.len() ==> !flavor_matches(#[trigger] fs@[i], name_or_id@)
                &&& r matches Lookup::Missing(m) && m@ == flavor_missing(name_or_id@)
            }
        },
{
    match event {
        FlavorLookupEvent::Start => match parse_u32(name_or_id) {
            Some(id) => Lookup::Found(id),
            None => Lookup::FetchMe(api.user.me()),
        },
        FlavorLookupEvent::Me(me) => {
            match list(api, &FlavorListFilter { all: me.is_staff, group: None }) {
                Ok(q) => Lookup::FetchList(q),
                Err(e) => Lookup::Failed(e),
            }
        },
        FlavorLookupEvent::Listed(fs) => search(fs, name_or_id),
    }
}

/// The id of the first flavor that goes by `name`, or the message that none does.
fn search(fs: &Vec<Flavor>, name: &str) -> (r: Lookup)
    ensures
        (exists|i: int| first_flavor_match(fs@, name@, i) && r == Lookup::Found(fs@[i].id)) || ({
            &&& forall|i: int| 0 <= i < fs@.len() ==> !flavor_matches(#[trigger] fs@[i], name@)
            &&& r matches Lookup::Missing(m) && m@ == flavor_missing(name@)
        }),
{
    let mut i: usize = 0;
    while i < fs.len()
        invariant
            i <= fs@.len(),
            forall|j: int| 0 <= j < i ==> !flavor_matches(#[trigger] fs@[j], name@),
        decreases fs.len() - i,
    {
        let f = &fs[i];
        if text_matches(f.openstack_id.as_str(), f.name.as_str(), name) {
            assert(first_flavor_match(fs@, name@, i as int));
            return Lookup::Found(f.id);
        }
        i = i + 1;
    }
    let mut m = "Could not find flavor with name or openstack ID: ".to_owned();
    m.append(name);
    Lookup::Missing(m)
}

/// A flavor is found by name: in a listing where the flavor at `i` has the name `t` and no
/// earlier flavor has `t` as name or OpenStack id, that flavor is the first match, the only
/// first match, and the search does not come up empty.
pub proof fn lemma_flavor_found_by_name(xs: Seq<Flavor>, t: Seq<char>, i: int)
    requires
        0 <= i < xs.len(),
        xs[i].name@ == t,
        forall|j: int| 0 <= j < i ==> xs[j].name@ != t && xs[j].openstack_id@ != t,
    ensures
        first_flavor_match(xs, t, i),
        forall|k: int| first_flavor_match(xs, t, k) ==> k == i,
        flavor_matches(xs[i], t),
{
}

/// A flavor is found by OpenStack id: in a listing where the flavor at `i` has the
/// OpenStack id `t` and no earlier flavor has `t` as name or OpenStack id, that flavor is
/// the first match, the only first match, and the search does not come up empty.
pub proof fn lemma_flavor_found_by_openstack_id(xs: Seq<Flavor>, t: Seq<char>, i: int)
    requires
        0 <= i < xs.len(),
        xs[i].openstack_id@ == t,
        forall|j: int| 0 <= j < i ==> xs[j].name@ != t && xs[j].openstack_id@ != t,
    ensures
        first_flavor_match(xs, t, i),
        forall|k: int| first_flavor_match(xs, t, k) ==> k == i,
        flavor_matches(xs[i], t),
{
}

/// A search comes up empty exactly when no flavor in the listing has `t` as name or
/// OpenStack id.
pub proof fn lemma_flavor_missing(xs: Seq<Flavor>, t: Seq<char>)
    ensures
        (forall|j: int| 0 <= j < xs.len() ==> !flavor_matches(#[trigger] xs[j], t)) <==> (forall|j: int|
            0 <= j < xs.len() ==> xs[j].name@ != t && xs[j].openstack_id@ != t),
{
}

/// The flavors a lookup searches: all of them for staff (`all=1`), else the default set
/// (no query).
pub proof fn lemma_lookup_scope(me: UserDetailed)
    ensures
        me.is_staff ==> lookup_pairs(me) == seq![("all"@, "1"@)],
        !me.is_staff ==> lookup_pairs(me).len() == 0,
{
}

/// `flavor list` asks for all flavors with `all=1`, else for one group's with
/// `flavorgroup=<g>`, else for the default set with no query.
pub proof fn lemma_list_query(f: FlavorListFilter)
    ensures
        f.all ==> list_pairs(f) == seq![("all"@, "1"@)],
        (!f.all && f.group is Some) ==> list_pairs(f) == seq![("flavorgroup"@, dec(f.group->0 as nat))],
        (!f.all && f.group is None) ==> list_pairs(f).len() == 0,
{
}

} // verus!
