use github_rs::client::BuildError;
use github_rs::graph::Method;
use github_rs::graphql::{Mutation, Query};
use github_rs::headers::get_header;

#[test]
fn query_body_escapes_quotes_and_line_breaks() {
    let q = Query::new_raw("query {\n viewer { login(x: \"y\") } }");
    let req = q.into_github_req("tok").unwrap();
    assert_eq!(req.method, Method::Post);
    assert_eq!(req.url, "https://api.github.com/graphql");
    assert_eq!(
        String::from_utf8(req.body).unwrap(),
        "{ \"query\": \"query {\\n viewer { login(x: \\\"y\\\") } }\" }"
    );
    assert_eq!(get_header(&req.headers, &"authorization".to_string()), Some("token tok".to_string()));
    assert_eq!(get_header(&req.headers, &"user-agent".to_string()), Some("github-rs".to_string()));
    assert_eq!(req.headers.len(), 3);
}

#[test]
fn query_body_is_valid_json() {
    let q = Query::new_raw("a\\b\t\r\u{1}\"c\"\nd");
    let req = q.into_github_req("t").unwrap();
    let v: serde_json::Value = serde_json::from_slice(&req.body).unwrap();
    assert_eq!(v["query"], serde_json::Value::from("a\\b\t\r\u{1}\"c\"\nd"));
    let text = String::from_utf8(req.body).unwrap();
    assert_eq!(text, "{ \"query\": \"a\\\\b\\t\\r\\u0001\\\"c\\\"\\nd\" }");
}

#[test]
fn query_text_can_be_replaced() {
    let mut q = Query::new();
    assert_eq!(q.query, "");
    q.raw_query("query { viewer { login } }");
    let req = q.into_github_req("t").unwrap();
    assert_eq!(String::from_utf8(req.body).unwrap(), "{ \"query\": \"query { viewer { login } }\" }");
}

#[test]
fn query_for_enterprise_endpoint() {
    let mut q = Query::with_base_url("https://github.corporate.net/api/graphql");
    q.raw_query("query { viewer { login } }");
    let req = q.into_github_req("t").unwrap();
    assert_eq!(req.url, "https://github.corporate.net/api/graphql");
    let q = Query::with_base_url("not a url");
    assert!(matches!(q.into_github_req("t"), Err(BuildError::BaseUrl)));
}

#[test]
fn mutation_text_is_sent_as_is() {
    let mut m = Mutation::new();
    assert_eq!(m.mutation, "");
    m.raw_mutation("mutation { a }");
    let req = m.into_github_req("t").unwrap();
    assert_eq!(String::from_utf8(req.body).unwrap(), "{ \"query\": \"mutation { a }\" }");
    let m = Mutation::new_raw("x\"y");
    let req = m.into_github_req("t").unwrap();
    assert_eq!(String::from_utf8(req.body).unwrap(), "{ \"query\": \"x\\\"y\" }");
    assert!(matches!(Mutation::new_raw("m").into_github_req("a\nb"), Err(BuildError::InvalidHeader)));
}
