use lrzcc::common::{ApiError, Method};
use lrzcc::datetime::DateTime;
use lrzcc::token::Token;
use lrzcc::{Api, DEFAULT_TIMEOUT};

const BASE: &str = "https://cc.example.org/api";

fn api() -> Api {
    Api::new(BASE.to_string(), Token::from_text("secret-token"), None, None).unwrap()
}

fn header_pairs(api: &Api) -> Vec<(String, String)> {
    api.headers.clone()
}

#[test]
fn api_headers_and_endpoints() {
    let api = Api::new(BASE.to_string(), Token::from_text(" abc "), Some(42), Some(10)).unwrap();
    assert_eq!(
        header_pairs(&api),
        vec![
            ("content-type".to_string(), "application/json".to_string()),
            ("X-Auth-Token".to_string(), "abc".to_string()),
            ("X-Impersonate".to_string(), "42".to_string()),
        ]
    );
    assert_eq!(api.timeout, 10);
    assert_eq!(api.flavor.url, format!("{BASE}/resources/flavors"));
    assert_eq!(api.user.url, format!("{BASE}/user/users"));
    assert_eq!(api.server_cost.url, format!("{BASE}/accounting/servercost/"));
    assert_eq!(api.budget_bulk_create.url, format!("{BASE}/budgeting/budgetbulkcreate/"));
}

#[test]
fn api_defaults() {
    let api = api();
    assert_eq!(api.timeout, DEFAULT_TIMEOUT);
    assert_eq!(api.timeout, 300);
    assert_eq!(api.headers.len(), 2);
    assert_eq!(api.token.as_ref(), "secret-token");
}

#[test]
fn api_rejects_bad_token() {
    match Api::new(BASE.to_string(), Token::from_text("a\u{1}b"), None, None) {
        Err(ApiError::UnexpectedError(m)) => assert_eq!(m, "Failed to create token header value"),
        Err(e) => panic!("unexpected {e:?}"),
        Ok(_) => panic!("accepted a token with a control character"),
    }
}

#[test]
fn flavor_requests() {
    let api = api();
    let mut list = api.flavor.list();
    list.all().group(3);
    let r = list.send();
    assert_eq!(r.method, Method::Get);
    assert_eq!(r.url, format!("{BASE}/resources/flavors?all=true&flavorgroup=3"));
    assert_eq!(r.expected_status, 200);
    let r = api.flavor.get(7);
    assert_eq!(r.url, format!("{BASE}/resources/flavors/7"));
    let r = api.flavor.delete(7);
    assert_eq!(r.method, Method::Delete);
    assert_eq!(r.url, format!("{BASE}/resources/flavors/7/"));
    assert_eq!(r.expected_status, 204);
    let mut modify = api.flavor.modify(7);
    modify.name("tiny".to_string()).no_group();
    let r = modify.send();
    assert_eq!(r.method, Method::Patch);
    let data = r.data.unwrap();
    assert_eq!(data.id, 7);
    assert_eq!(data.name, Some("tiny".to_string()));
    assert_eq!(data.group, Some(None));
    assert_eq!(api.flavor.import().url, format!("{BASE}/resources/flavors/import/"));
}

#[test]
fn user_requests() {
    let api = api();
    assert_eq!(api.user.me().url, format!("{BASE}/user/me"));
    assert_eq!(api.user.import().url, format!("{BASE}/user/import/"));
    let mut create = api.user.create("u".to_string(), "oid".to_string(), 5);
    create.staff().inactive();
    let r = create.send();
    assert_eq!(r.method, Method::Post);
    assert_eq!(r.expected_status, 201);
    assert_eq!(r.url, format!("{BASE}/user/users/"));
    let d = r.data.unwrap();
    assert_eq!((d.project, d.is_staff, d.is_active, d.role), (5, Some(true), Some(false), None));
}

#[test]
fn flavor_group_listing_is_parsed() {
    let api = api();
    let mut list = api.flavor_group.list();
    list.all();
    let r = list.send().unwrap();
    assert_eq!(r.url, format!("{BASE}/resources/flavorgroups?all=1"));
    let bad = Api::new("no url".to_string(), Token::from_text("t"), None, None).unwrap();
    match bad.flavor_group.list().send() {
        Err(ApiError::UnexpectedError(m)) => assert_eq!(m, "Could not parse URL GET parameters."),
        other => panic!("unexpected {other:?}"),
    }
}

#[test]
fn flavor_price_listing_is_parsed() {
    let api = Api::new("HTTPS://CC.Example.org/api".to_string(), Token::from_text("t"), None, None)
        .unwrap();
    let r = api.flavor_price.list().send().unwrap();
    assert_eq!(r.url, "https://cc.example.org/api/pricing/flavorprices");
}

#[test]
fn quota_defaults_to_unlimited() {
    let api = api();
    let r = api.flavor_quota.create(2, 3).send();
    let d = r.data.unwrap();
    assert_eq!((d.flavor_group, d.user, d.quota), (2, 3, -1));
}

#[test]
fn budget_requests() {
    let api = api();
    let mut list = api.project_budget.list();
    list.user(4).year(2024);
    assert_eq!(list.send().url, format!("{BASE}/budgeting/projectbudgets?user=4&year=2024"));
    let mut modify = api.user_budget.modify(9);
    modify.amount(100).force();
    let d = modify.send().data.unwrap();
    assert_eq!((d.id, d.amount, d.force), (9, Some(100), true));
    let r = api.budget_bulk_create.run(2025);
    assert_eq!(r.data.unwrap().year, 2025);
    assert_eq!(r.url, format!("{BASE}/budgeting/budgetbulkcreate/"));
}

#[test]
fn server_cost_requests() {
    let api = api();
    let begin = DateTime::new(0, 0, 0).unwrap();
    let mut request = api.server_cost.get();
    request.begin(begin);
    let r = request.user(8);
    assert_eq!(r.url, format!("{BASE}/accounting/servercost/?begin=1970-01-01T00%3A00%3A00Z&user=8"));
    let r = api.server_cost.get().mine();
    assert_eq!(r.url, format!("{BASE}/accounting/servercost/"));
}

#[test]
fn status_expectations() {
    let api = api();
    assert_eq!(api.hello.admin().url, format!("{BASE}/hello/admin"));
    assert_eq!(api.hello.user().url, format!("{BASE}/hello"));
    assert_eq!(api.usage.get().url, format!("{BASE}/resources/usage"));
    assert_eq!(api.flavor_group.initialize().url, format!("{BASE}/resources/flavorgroups/initialize/"));
}
