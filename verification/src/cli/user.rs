//! The user commands: which request each sends, and the lookup of a user by name,
//! OpenStack id or id.
use crate::cli::{all_pair, is_delete, is_get, lookup_planned, push_all, text_matches, Lookup};
use crate::common::{
    get_with_params, item_url, opt_u32_pair, pairs_view, planned_get, push_u32, ApiError, Method,
    NoBody, Request, CREATED, OK,
};
use crate::text::{dec, parse_u32, parse_u32_spec};
use crate::user::user::{parent_url, User, UserCreateData, UserDetailed, UserModifyData};
use crate::Api;
use vstd::prelude::*;

verus! {

/// Which users a listing shows: all of them, those of one project, or the default set.
pub struct UserListFilter {
    pub all: bool,
    pub project: Option<u32>,
}

/// The query a user listing sends: `all=1` for all users, else `project=<p>` for one
/// project, else none.
pub open spec fn list_pairs(filter: UserListFilter) -> Seq<(Seq<char>, Seq<char>)> {
    if filter.all {
        all_pair()
    } else {
        opt_u32_pair("project"@, filter.project)
    }
}

/// The listing that `user list` sends: `GET` of the user URL as the URL parser writes
/// it, with the query appended.
pub fn list(api: &Api, filter: &UserListFilter) -> (r: Result<Request<NoBody>, ApiError>)
    ensures
        planned_get(r, api.user.url@, list_pairs(*filter)),
{
    let mut pairs: Vec<(String, String)> = Vec::new();
    assert(pairs_view(pairs@) =~= Seq::empty());
    if filter.all {
        push_all(&mut pairs);
    } else {
        push_u32(&mut pairs, "project", filter.project);
    }
    assert(pairs_view(pairs@) =~= list_pairs(*filter));
    get_with_params(api.user.url.as_str(), &pairs)
}

/// `GET` of the user with this id.
pub fn get(api: &Api, id: u32) -> (r: Request<NoBody>)
    ensures
        is_get(r, item_url(api.user.url@, id)),
{
    api.user.get(id)
}

/// The creation that `user create` sends: staff only when asked, inactive only when
/// asked.
pub fn create(
    api: &Api,
    name: String,
    openstack_id: String,
    project: u32,
    role: Option<u32>,
    staff: bool,
    inactive: bool,
) -> (r: Request<UserCreateData>)
    ensures
        r.method == Method::Post,
        r.url@ == api.user.url@ + seq!['/'],
        r.data == Some(
            UserCreateData {
                name,
                openstack_id,
                project,
                role,
                is_staff: if staff { Some(true) } else { None },
                is_active: if inactive { Some(false) } else { None },
            },
        ),
        r.expected_status == CREATED,
{
    let mut request = api.user.create(name, openstack_id, project);
    if let Some(role) = role {
        request.role(role);
    }
    if staff {
        request.staff();
    }
    if inactive {
        request.inactive();
    }
    request.send()
}

/// The change that `user modify` sends: exactly the fields given.
pub fn modify(
    api: &Api,
    id: u32,
    name: Option<String>,
    openstack_id: Option<String>,
    project: Option<u32>,
    role: Option<u32>,
    staff: Option<bool>,
    active: Option<bool>,
) -> (r: Request<UserModifyData>)
    ensures
        r.method == Method::Patch,
        r.url@ == item_url(api.user.url@, id) + seq!['/'],
        r.data == Some(
            UserModifyData {
                id,
                name,
                openstack_id,
                project,
                role,
                is_staff: staff,
                is_active: active,
            },
        ),
        r.expected_status == OK,
{
    let mut request = api.user.modify(id);
    if let Some(name) = name {
        request.name(name);
    }
    if let Some(openstack_id) = openstack_id {
        request.openstack_id(openstack_id);
    }
    if let Some(project) = project {
        request.project(project);
    }
    if let Some(role) = role {
        request.role(role);
    }
    if let Some(staff) = staff {
        request.is_staff(staff);
    }
    if let Some(active) = active {
        request.is_active(active);
    }
    request.send()
}

/// `DELETE` of the user with this id.
pub fn delete(api: &Api, id: u32) -> (r: Request<NoBody>)
    ensures
        is_delete(r, item_url(api.user.url@, id) + seq!['/']),
{
    api.user.delete(id)
}

/// `GET` of one's own user.
pub fn me(api: &Api) -> (r: Request<NoBody>)
    ensures
        is_get(r, parent_url(api.user.url@) + "/me"@),
{
    api.user.me()
}

/// What the lookup of a user has been handed: nothing yet, one's own user, or the users
/// listed.
pub enum UserLookupEvent {
    Start,
    Me(UserDetailed),
    Listed(Vec<User>),
}

/// Whether a user goes by `name`, as OpenStack id or as name.
pub open spec fn user_matches(u: User, name: Seq<char>) -> bool {
    u.openstack_id@ == name || u.name@ == name
}

/// `i` is the first user of `us` that goes by `name`.
pub open spec fn first_user_match(us: Seq<User>, name: Seq<char>, i: int) -> bool {
    &&& 0 <= i < us.len()
    &&& user_matches(us[i], name)
    &&& forall|j: int| 0 <= j < i ==> !user_matches(#[trigger] us[j], name)
}

/// The filter of the listing the lookup searches: all users for staff, one's own project
/// for a master user (role 2), the default set otherwise.
pub open spec fn lookup_filter(me: UserDetailed) -> UserListFilter {
    if me.is_staff {
        UserListFilter { all: true, project: None }
    } else if me.role == 2 {
        UserListFilter { all: false, project: Some(me.project.id) }
    } else {
        UserListFilter { all: false, project: None }
    }
}

/// `Could not find user with name or openstack ID: <name>`.
pub open spec fn user_missing(name: Seq<char>) -> Seq<char> {
    "Could not find user with name or openstack ID: "@ + name
}

/// One step of finding the id of the user that goes by `name_or_id`. A decimal number is
/// the id itself. Otherwise one's own user is fetched, then the users one may see, and
/// the first that goes by the name as OpenStack id or name gives the id.
pub fn find_id(api: &Api, name_or_id: &str, event: &UserLookupEvent) -> (r: Lookup)
    ensures
        event is Start ==> match parse_u32_spec(name_or_id@) {
            Some(id) => r == Lookup::Found(id),
            None => r matches Lookup::FetchMe(q) && is_get(q, parent_url(api.user.url@) + "/me"@),
        },
        event matches UserLookupEvent::Me(me) ==> lookup_planned(
            r,
            api.user.url@,
            list_pairs(lookup_filter(*me)),
        ),
        event matches UserLookupEvent::Listed(us) ==> {
            ||| exists|i: int| first_user_match(us@, name_or_id@, i) && r == Lookup::Found(us@[i].id)
            ||| {
                &&& forall|i: int| 0 <= i < us@.len() ==> !user_matches(#[trigger] us@[i], name_or_id@)
                &&& r matches Lookup::Missing(m) && m@ == user_missing(name_or_id@)
            }
        },
{
    match event {
        UserLookupEvent::Start => match parse_u32(name_or_id) {
            Some(id) => Lookup::Found(id),
            None => Lookup::FetchMe(api.user.me()),
        },
        UserLookupEvent::Me(me) => {
            let filter = if me.is_staff {
                UserListFilter { all: true, project: None }
            } else if me.role == 2 {
                UserListFilter { all: false, project: Some(me.project.id) }
            } else {
                UserListFilter { all: false, project: None }
            };
            match list(api, &filter) {
                Ok(q) => Lookup::FetchList(q),
                Err(e) => Lookup::Failed(e),
            }
        },
        UserLookupEvent::Listed(us) => search(us, name_or_id),
    }
}

/// The id of the first user that goes by `name`, or the message that none does.
fn search(us: &Vec<User>, name: &str) -> (r: Lookup)
    ensures
        (exists|i: int| first_user_match(us@, name@, i) && r == Lookup::Found(us@[i].id)) || ({
            &&& forall|i: int| 0 <= i < us@.len() ==> !user_matches(#[trigger] us@[i], name@)
            &&& r matches Lookup::Missing(m) && m@ == user_missing(name@)
        }),
{
    let mut i: usize = 0;
    while i < us.len()
        invariant
            i <= us@.len(),
            forall|j: int| 0 <= j < i ==> !user_matches(#[trigger] us@[j], name@),
        decreases us.len() - i,
    {
        let u = &us[i];
        if text_matches(u.openstack_id.as_str(), u.name.as_str(), name) {
            assert(first_user_match(us@, name@, i as int));
            return Lookup::Found(u.id);
        }
        i = i + 1;
    }
    let mut m = "Could not find user with name or openstack ID: ".to_owned();
    m.append(name);
    Lookup::Missing(m)
}

/// A user is found by name: in a listing where the user at `i` has the name `t` and no
/// earlier user has `t` as name or OpenStack id, that user is the first match, the only
/// first match, and the search does not come up empty.
pub proof fn lemma_user_found_by_name(xs: Seq<User>, t: Seq<char>, i: int)
    requires
        0 <= i < xs.len(),
        xs[i].name@ == t,
        forall|j: int| 0 <= j < i ==> xs[j].name@ != t && xs[j].openstack_id@ != t,
    ensures
        first_user_match(xs, t, i),
        forall|k: int| first_user_match(xs, t, k) ==> k == i,
        user_matches(xs[i], t),
{
}

/// A user is found by OpenStack id: in a listing where the user at `i` has the
/// OpenStack id `t` and no earlier user has `t` as name or OpenStack id, that user is
/// the first match, the only first match, and the search does not come up empty.
pub proof fn lemma_user_found_by_openstack_id(xs: Seq<User>, t: Seq<char>, i: int)
    requires
        0 <= i < xs.len(),
        xs[i].openstack_id@ == t,
        forall|j: int| 0 <= j < i ==> xs[j].name@ != t && xs[j].openstack_id@ != t,
    ensures
        first_user_match(xs, t, i),
        forall|k: int| first_user_match(xs, t, k) ==> k == i,
        user_matches(xs[i], t),
{
}

/// A search comes up empty exactly when no user in the listing has `t` as name or
/// OpenStack id.
pub proof fn lemma_user_missing(xs: Seq<User>, t: Seq<char>)
    ensures
        (forall|j: int| 0 <= j < xs.len() ==> !user_matches(#[trigger] xs[j], t)) <==> (forall|j: int|
            0 <= j < xs.len() ==> xs[j].name@ != t && xs[j].openstack_id@ != t),
{
}

/// The users a lookup searches: all of them for staff (`all=1`), one's own project for a
/// master user (`project=<own project id>`), else the default set (no query).
pub proof fn lemma_lookup_scope(me: UserDetailed)
    ensures
        me.is_staff ==> list_pairs(lookup_filter(me)) == seq![("all"@, "1"@)],
        (!me.is_staff && me.role == 2) ==> list_pairs(lookup_filter(me)) == seq![
            ("project"@, dec(me.project.id as nat)),
        ],
        (!me.is_staff && me.role != 2) ==> list_pairs(lookup_filter(me)).len() == 0,
{
}

/// `user list` asks for all users with `all=1`, else for one project's with
/// `project=<p>`, else for the default set with no query.
pub proof fn lemma_list_query(f: UserListFilter)
    ensures
        f.all ==> list_pairs(f) == seq![("all"@, "1"@)],
        (!f.all && f.project is Some) ==> list_pairs(f) == seq![("project"@, dec(f.project->0 as nat))],
        (!f.all && f.project is None) ==> list_pairs(f).len() == 0,
{
}

} // verus!
