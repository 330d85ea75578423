use lrzcc::cli::flavor::{self as flavor_cli, FlavorListFilter, FlavorLookupEvent};
use lrzcc::cli::server_cost::{server_cost, ServerCostFilter};
use lrzcc::cli::user::{self as user_cli, UserListFilter, UserLookupEvent};
use lrzcc::cli::{
    flavor_group, flavor_price, flavor_quota, hello, project, project_budget, server_state,
    user_budget, Format, Lookup, TableFormat,
};
use lrzcc::common::{ApiError, Method};
use lrzcc::datetime::DateTime;
use lrzcc::resources::flavor::Flavor;
use lrzcc::token::Token;
use lrzcc::user::project::ProjectMinimal;
use lrzcc::user::user::{User, UserDetailed};
use lrzcc::Api;

const BASE: &str = "http://localhost:8000/api";

fn api() -> Api {
    Api::new(BASE.to_string(), Token::from_text("t"), None, None).unwrap()
}

fn me(is_staff: bool, role: u32) -> UserDetailed {
    UserDetailed {
        id: 1,
        name: "me".to_string(),
        openstack_id: "os-me".to_string(),
        project: ProjectMinimal { id: 12, name: "p".to_string() },
        project_name: "p".to_string(),
        role,
        is_staff,
        is_active: true,
    }
}

fn flavor(id: u32, name: &str, openstack_id: &str) -> Flavor {
    Flavor {
        id,
        name: name.to_string(),
        openstack_id: openstack_id.to_string(),
        group: None,
        group_name: None,
        weight: 0,
    }
}

fn user(id: u32, name: &str, openstack_id: &str) -> User {
    User {
        id,
        name: name.to_string(),
        openstack_id: openstack_id.to_string(),
        project: 12,
        project_name: "p".to_string(),
        role: 1,
        is_staff: false,
        is_active: true,
    }
}

#[test]
fn format_names_round_trip() {
    let all = Format::value_variants();
    assert_eq!(all.len(), 14);
    for f in &all {
        let name = f.to_possible_value().unwrap();
        assert_eq!(Format::from_str(name, false), Ok(*f));
    }
    assert_eq!(Format::from_str("json", true), Ok(Format::Json));
    assert_eq!(Format::from_str("modern-rounded", false), Ok(Format::Table(TableFormat::ModernRounded)));
    assert_eq!(Format::Table(TableFormat::ReStructuredText).to_possible_value(), Some("re-structured-text"));
}

#[test]
fn unknown_format_is_refused() {
    assert_eq!(Format::from_str("yaml", false), Err("Invalid format: yaml".to_string()));
    assert_eq!(Format::from_str("JSON", true), Err("Invalid format: JSON".to_string()));
}

#[test]
fn flavor_list_filters() {
    let api = api();
    let r = flavor_cli::list(&api, &FlavorListFilter { all: true, group: Some(3) }).unwrap();
    assert_eq!(r.url, format!("{BASE}/resources/flavors?all=1"));
    let r = flavor_cli::list(&api, &FlavorListFilter { all: false, group: Some(3) }).unwrap();
    assert_eq!(r.url, format!("{BASE}/resources/flavors?flavorgroup=3"));
    let r = flavor_cli::list(&api, &FlavorListFilter { all: false, group: None }).unwrap();
    assert_eq!(r.url, format!("{BASE}/resources/flavors?"));
}

#[test]
fn flavor_modify_group_choice() {
    let api = api();
    let r = flavor_cli::modify(&api, 4, None, None, Some(2), true);
    assert_eq!(r.data.unwrap().group, Some(Some(2)));
    let r = flavor_cli::modify(&api, 4, None, None, None, true);
    assert_eq!(r.data.unwrap().group, Some(None));
    let r = flavor_cli::modify(&api, 4, Some("n".to_string()), None, None, false);
    let d = r.data.unwrap();
    assert_eq!((d.group, d.name), (None, Some("n".to_string())));
    assert_eq!(r.url, format!("{BASE}/resources/flavors/4/"));
}

#[test]
fn flavor_lookup_by_number() {
    let api = api();
    assert_eq!(flavor_cli::find_id(&api, "17", &FlavorLookupEvent::Start), Lookup::Found(17));
}

#[test]
fn flavor_lookup_by_name() {
    let api = api();
    match flavor_cli::find_id(&api, "tiny", &FlavorLookupEvent::Start) {
        Lookup::FetchMe(r) => assert_eq!(r.url, format!("{BASE}/user/me")),
        other => panic!("unexpected {other:?}"),
    }
    match flavor_cli::find_id(&api, "tiny", &FlavorLookupEvent::Me(me(true, 1))) {
        Lookup::FetchList(r) => assert_eq!(r.url, format!("{BASE}/resources/flavors?all=1")),
        other => panic!("unexpected {other:?}"),
    }
    match flavor_cli::find_id(&api, "tiny", &FlavorLookupEvent::Me(me(false, 2))) {
        Lookup::FetchList(r) => assert_eq!(r.url, format!("{BASE}/resources/flavors?")),
        other => panic!("unexpected {other:?}"),
    }
    let listed = vec![flavor(1, "big", "os-tiny"), flavor(2, "tiny", "x"), flavor(3, "tiny", "y")];
    assert_eq!(
        flavor_cli::find_id(&api, "tiny", &FlavorLookupEvent::Listed(listed.clone())),
        Lookup::Found(2)
    );
    assert_eq!(
        flavor_cli::find_id(&api, "os-tiny", &FlavorLookupEvent::Listed(listed.clone())),
        Lookup::Found(1)
    );
    assert_eq!(
        flavor_cli::find_id(&api, "huge", &FlavorLookupEvent::Listed(listed)),
        Lookup::Missing("Could not find flavor with name or openstack ID: huge".to_string())
    );
}

#[test]
fn user_lookup_scopes() {
    let api = api();
    let scope = |m: UserDetailed| match user_cli::find_id(&api, "bob", &UserLookupEvent::Me(m)) {
        Lookup::FetchList(r) => r.url,
        other => panic!("unexpected {other:?}"),
    };
    assert_eq!(scope(me(true, 2)), format!("{BASE}/user/users?all=1"));
    assert_eq!(scope(me(false, 2)), format!("{BASE}/user/users?project=12"));
    assert_eq!(scope(me(false, 1)), format!("{BASE}/user/users?"));
    let listed = vec![user(5, "alice", "os-a"), user(6, "bob", "os-b")];
    assert_eq!(user_cli::find_id(&api, "os-b", &UserLookupEvent::Listed(listed.clone())), Lookup::Found(6));
    assert_eq!(
        user_cli::find_id(&api, "carol", &UserLookupEvent::Listed(listed)),
        Lookup::Missing("Could not find user with name or openstack ID: carol".to_string())
    );
    assert_eq!(user_cli::find_id(&api, "+6", &UserLookupEvent::Start), Lookup::Found(6));
}

#[test]
fn user_list_and_create() {
    let api = api();
    let r = user_cli::list(&api, &UserListFilter { all: false, project: Some(9) }).unwrap();
    assert_eq!(r.url, format!("{BASE}/user/users?project=9"));
    let r = user_cli::create(&api, "n".to_string(), "o".to_string(), 9, Some(2), false, true);
    let d = r.data.unwrap();
    assert_eq!((d.role, d.is_staff, d.is_active), (Some(2), None, Some(false)));
    assert_eq!(user_cli::me(&api).url, format!("{BASE}/user/me"));
    assert_eq!(user_cli::delete(&api, 3).method, Method::Delete);
}

#[test]
fn quota_and_budget_filters() {
    let api = api();
    let r = flavor_quota::list(&api, &flavor_quota::FlavorQuotaListFilter { all: false, group: Some(1), user: Some(2) })
        .unwrap();
    assert_eq!(r.url, format!("{BASE}/quota/flavorquotas?flavorgroup=1"));
    let r = flavor_quota::list(&api, &flavor_quota::FlavorQuotaListFilter { all: false, group: None, user: Some(2) })
        .unwrap();
    assert_eq!(r.url, format!("{BASE}/quota/flavorquotas?user=2"));
    assert_eq!(flavor_quota::user_to_find(false, None, &Some("bob".to_string())), Some("bob".to_string()));
    assert_eq!(flavor_quota::user_to_find(false, Some(1), &Some("bob".to_string())), None);
    assert_eq!(flavor_quota::user_to_find(true, None, &Some("bob".to_string())), None);
    let r = flavor_quota::create(&api, 1, 2, None);
    assert_eq!(r.data.unwrap().quota, -1);
    let r = project_budget::list(
        &api,
        &project_budget::ProjectBudgetListFilter { user: None, project: Some(7), all: true, year: Some(2024) },
    )
    .unwrap();
    assert_eq!(r.url, format!("{BASE}/budgeting/projectbudgets?project=7&year=2024"));
}

#[test]
fn server_state_filters() {
    let api = api();
    let r = server_state::list(
        &api,
        &server_state::ServerStateListFilter { server: Some("abc".to_string()), user: Some(1), project: None, all: true },
    )
    .unwrap();
    assert_eq!(r.url, format!("{BASE}/accounting/serverstates?server=abc"));
    let r = server_state::list(
        &api,
        &server_state::ServerStateListFilter { server: None, user: None, project: None, all: true },
    )
    .unwrap();
    assert_eq!(r.url, format!("{BASE}/accounting/serverstates?all=1"));
}

#[test]
fn server_cost_scopes() {
    let api = api();
    let none = ServerCostFilter { server: None, user: None, project: None, all: false };
    assert_eq!(server_cost(&api, None, None, &none).unwrap().url, format!("{BASE}/accounting/servercost/?"));
    let all = ServerCostFilter { server: None, user: None, project: Some(4), all: true };
    assert_eq!(
        server_cost(&api, None, None, &all).unwrap().url,
        format!("{BASE}/accounting/servercost/?project=4")
    );
    let begin = DateTime::new(0, 0, 0).unwrap();
    let end = DateTime::new(3600, 0, 3600).unwrap();
    assert_eq!(
        server_cost(&api, Some(begin), Some(end), &all).unwrap().url,
        format!("{BASE}/accounting/servercost/?begin=1970-01-01T00%3A00%3A00%2B00%3A00&end=1970-01-01T02%3A00%3A00%2B01%3A00&project=4")
    );
    let by_server = ServerCostFilter { server: Some("s".to_string()), user: None, project: None, all: false };
    assert_eq!(server_cost(&api, None, None, &by_server).unwrap().url, format!("{BASE}/accounting/servercost/?server=s"));
    assert_eq!(lrzcc::cli::server_cost::user_to_find(&None, &Some("u".to_string())), Some("u".to_string()));
    assert_eq!(lrzcc::cli::server_cost::user_to_find(&Some("s".to_string()), &Some("u".to_string())), None);
}

#[test]
fn remaining_command_requests() {
    let api = api();
    match flavor_group::list(&api, &flavor_group::FlavorGroupListFilter { all: false }) {
        Ok(r) => assert_eq!(r.url, format!("{BASE}/resources/flavorgroups?")),
        Err(e) => panic!("unexpected {e:?}"),
    }
    let r = flavor_group::create(&api, "g".to_string());
    let d = r.data.unwrap();
    assert_eq!((d.name.as_str(), d.flavors.len()), ("g", 0));
    let r = flavor_group::modify(&api, 2, None, Some(5));
    let d = r.data.unwrap();
    assert_eq!((d.id, d.name, d.project), (2, None, Some(5)));
    assert_eq!(flavor_group::delete(&api, 2).url, format!("{BASE}/resources/flavorgroups/2/"));
    assert_eq!(hello::admin(&api).url, format!("{BASE}/hello/admin"));
    assert_eq!(hello::user(&api).url, format!("{BASE}/hello"));
    let r = flavor_price::list(&api).unwrap();
    assert_eq!(r.url, format!("{BASE}/pricing/flavorprices"));
    assert_eq!(flavor_price::get(&api, 3).url, format!("{BASE}/pricing/flavorprices/3"));
    let r = project::list(&api, &project::ProjectListFilter { all: false, user_class: Some(2) }).unwrap();
    assert_eq!(r.url, format!("{BASE}/user/projects?userclass=2"));
    let r = project::create(&api, "p".to_string(), "o".to_string(), None);
    assert_eq!(r.data.unwrap().user_class, None);
    let r = user_budget::list(&api, &user_budget::UserBudgetListFilter { user: Some(1), project: Some(2), all: true, year: None })
        .unwrap();
    assert_eq!(r.url, format!("{BASE}/budgeting/userbudgets?user=1"));
    let r = user_budget::create(&api, 1, Some(2024), Some(-5));
    let d = r.data.unwrap();
    assert_eq!((d.user, d.year, d.amount), (1, Some(2024), Some(-5)));
    let begin = DateTime::new(60, 0, 0).unwrap();
    let r = server_state::create(&api, begin, None, "i".to_string(), "n".to_string(), 3, "ACTIVE".to_string(), 4);
    let d = r.data.unwrap();
    assert_eq!((d.begin.secs(), d.end.is_none(), d.flavor, d.user), (60, true, 3, 4));
    let r = server_state::modify(&api, 8, None, Some(begin), None, None, None, Some("STOPPED".to_string()), None);
    let d = r.data.unwrap();
    assert_eq!((d.id, d.end.map(|e| e.secs()), d.status), (8, Some(60), Some("STOPPED".to_string())));
    let bad = Api::new("::".to_string(), Token::from_text("t"), None, None).unwrap();
    match flavor_price::list(&bad) {
        Err(ApiError::UnexpectedError(m)) => assert_eq!(m, "Could not parse URL GET parameters."),
        other => panic!("unexpected {other:?}"),
    }
}

#[test]
fn lookup_with_unparsable_url_fails() {
    let bad = Api::new("::".to_string(), Token::from_text("t"), None, None).unwrap();
    assert_eq!(
        flavor_cli::find_id(&bad, "tiny", &FlavorLookupEvent::Me(me(false, 1))),
        Lookup::Failed(ApiError::UnexpectedError("Could not parse URL GET parameters.".to_string()))
    );
    assert_eq!(
        user_cli::find_id(&bad, "bob", &UserLookupEvent::Me(me(true, 1))),
        Lookup::Failed(ApiError::UnexpectedError("Could not parse URL GET parameters.".to_string()))
    );
}
