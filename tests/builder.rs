use github_rs::client::{BuildError, Github, PendingRequest, QueryBuilder};
use github_rs::exec::{prepare, Error};
use github_rs::graph::{Edge, Method, Node};
use github_rs::headers::get_header;
use github_rs::search::{OrderBy, SortBy, SortCodeBy, SortIssuesBy, SortRepositoriesBy, SortUsersBy};

fn url_of(b: &QueryBuilder) -> String {
    match &b.request {
        Ok(req) => req.url.clone(),
        Err(e) => panic!("build failed: {:?}", e),
    }
}

fn error_of(b: &QueryBuilder) -> BuildError {
    match &b.request {
        Ok(req) => panic!("expected a failed build, got {}", req.url),
        Err(e) => *e,
    }
}

fn header(req: &PendingRequest, name: &str) -> Option<String> {
    get_header(&req.headers, &name.to_string())
}

#[test]
fn root_request_has_standard_headers() {
    let g = Github::new("secret");
    let b = g.get();
    assert_eq!(b.node, Node::Root);
    let req = b.request.unwrap();
    assert_eq!(req.method, Method::Get);
    assert_eq!(req.url, "https://api.github.com");
    assert_eq!(header(&req, "content-type"), Some("application/json".to_string()));
    assert_eq!(header(&req, "user-agent"), Some("github-rs".to_string()));
    assert_eq!(header(&req, "accept"), Some("application/vnd.github.v3+json".to_string()));
    assert_eq!(header(&req, "authorization"), Some("token secret".to_string()));
    assert_eq!(req.headers.len(), 4);
    assert!(req.body.is_empty());
}

#[test]
fn token_can_be_read_and_replaced() {
    let mut g = Github::new("one");
    assert_eq!(g.get_token(), "one");
    g.set_token("two");
    assert_eq!(g.get_token(), "two");
    let req = g.delete_empty().request.unwrap();
    assert_eq!(req.method, Method::Delete);
    assert_eq!(header(&req, "authorization"), Some("token two".to_string()));
}

#[test]
fn token_with_line_break_fails_the_root() {
    let g = Github::new("bad\ntoken");
    assert_eq!(error_of(&g.get()), BuildError::InvalidHeader);
}

#[test]
fn segments_follow_transition_order() {
    let g = Github::new("t");
    let b = g.get().repos().owner("mgattozzi").repo("github-rs");
    assert_eq!(b.node, Node::ReposOwnerRepo);
    assert_eq!(url_of(&b), "https://api.github.com/repos/mgattozzi/github-rs");
    let b = g.get().orgs().org("rust-lang").repos();
    assert_eq!(url_of(&b), "https://api.github.com/orgs/rust-lang/repos");
    let b = g.get().users().username("octocat").followers();
    assert_eq!(url_of(&b), "https://api.github.com/users/octocat/followers");
    let b = g.get().teams().id("42").members();
    assert_eq!(url_of(&b), "https://api.github.com/teams/42/members");
}

#[test]
fn parameters_are_escaped() {
    let g = Github::new("t");
    let b = g.get().users().username("a b/c?d");
    assert_eq!(url_of(&b), "https://api.github.com/users/a%20b%2Fc%3Fd");
    let b = g.get().users().username("é");
    assert_eq!(url_of(&b), "https://api.github.com/users/%C3%A9");
    let b = g.get().users().username("A-z_0.9~");
    assert_eq!(url_of(&b), "https://api.github.com/users/A-z_0.9~");
}

#[test]
fn empty_parameter_still_builds() {
    let g = Github::new("t");
    let b = g.get().users().username("");
    assert_eq!(url_of(&b), "https://api.github.com/users/");
    let b = g.get().search().code().q("");
    assert_eq!(url_of(&b), "https://api.github.com/search/code?q=");
}

#[test]
fn search_query_parameters() {
    let g = Github::new("t");
    let b = g
        .get()
        .search()
        .repositories()
        .q("rust lang")
        .sort(SortBy::Repositories(SortRepositoriesBy::Stars))
        .order(OrderBy::Desc);
    assert_eq!(
        url_of(&b),
        "https://api.github.com/search/repositories?q=rust%20lang&sort=stars&order=desc"
    );
    let b = g.get().search().issues().q("is:open").sort(SortBy::Issues(SortIssuesBy::Comments));
    assert_eq!(url_of(&b), "https://api.github.com/search/issues?q=is%3Aopen&sort=comments");
}

#[test]
fn sort_key_must_match_search_area() {
    let g = Github::new("t");
    let b = g.get().search().code().q("x").sort(SortBy::Users(SortUsersBy::Joined));
    assert_eq!(error_of(&b), BuildError::IllegalTransition);
    let b = g.get().search().code().q("x").sort(SortBy::Code(SortCodeBy::Indexed));
    assert_eq!(url_of(&b), "https://api.github.com/search/code?q=x&sort=indexed");
    let b = g.get().search().users().sort(SortBy::Users(SortUsersBy::Joined));
    assert_eq!(error_of(&b), BuildError::IllegalTransition);
}

#[test]
fn more_endpoints_of_each_method() {
    let g = Github::new("t");
    let req = prepare(g.delete_empty().notifications().threads().id("9").subscription()).unwrap();
    assert_eq!(req.url, "https://api.github.com/notifications/threads/9/subscription");
    let req = prepare(g.put_empty().teams().id("3").repos().owner("o").repo("r")).unwrap();
    assert_eq!(req.url, "https://api.github.com/teams/3/repos/o/r");
    let req = prepare(g.post(&serde_json::Value::Null).repos().owner("o").repo("r").statuses().sha("abc")).unwrap();
    assert_eq!(req.url, "https://api.github.com/repos/o/r/statuses/abc");
    let req = prepare(g.get().users().username("u").received_events_public()).unwrap();
    assert_eq!(req.url, "https://api.github.com/users/u/received_events_public");
    let req = prepare(g.delete_empty().gists().id("1").comments().id("2")).unwrap();
    assert_eq!(req.url, "https://api.github.com/gists/1/comments/2");
    assert!(matches!(
        prepare(g.delete_empty().gists().id("1").comments()),
        Err(Error::Build(BuildError::NotAnEndpoint))
    ));
}

#[test]
fn transitions_depend_on_the_method() {
    let g = Github::new("t");
    assert_eq!(error_of(&g.put_empty().search()), BuildError::IllegalTransition);
    assert_eq!(error_of(&g.delete_empty().repos()), BuildError::IllegalTransition);
    assert_eq!(error_of(&g.patch(&serde_json::Value::Null).user().followers()), BuildError::IllegalTransition);
    let b = g.delete_empty().gists().id("7").star();
    assert_eq!(url_of(&b), "https://api.github.com/gists/7/star");
    let b = g.post(&serde_json::Value::Null).repos().owner("o").repo("r").issues();
    assert_eq!(url_of(&b), "https://api.github.com/repos/o/r/issues");
}

#[test]
fn sort_keys_and_orders_as_text() {
    assert_eq!(SortBy::Repositories(SortRepositoriesBy::Forks).to_string(), "forks");
    assert_eq!(SortRepositoriesBy::Stars.to_string(), "stars");
    assert_eq!(SortRepositoriesBy::Forks.to_string(), "forks");
    assert_eq!(SortRepositoriesBy::Updated.to_string(), "updated");
    assert_eq!(SortCodeBy::Indexed.to_string(), "indexed");
    assert_eq!(SortIssuesBy::Comments.to_string(), "comments");
    assert_eq!(SortIssuesBy::Created.to_string(), "created");
    assert_eq!(SortIssuesBy::Updated.to_string(), "updated");
    assert_eq!(SortUsersBy::Followers.to_string(), "followers");
    assert_eq!(SortUsersBy::Repositories.to_string(), "repositories");
    assert_eq!(SortUsersBy::Joined.to_string(), "joined");
    assert_eq!(OrderBy::Asc.to_string(), "asc");
    assert_eq!(OrderBy::Desc.to_string(), "desc");
}

#[test]
fn illegal_transition_is_an_error_that_sticks() {
    let g = Github::new("t");
    let bad = g.get().repos().repos();
    assert_eq!(error_of(&bad), BuildError::IllegalTransition);
    let later = g.get().repos().repos().owner("a").repo("b").issues();
    assert_eq!(error_of(&later), error_of(&bad));
    let later = g.get().repos().repos().set_etag("x").set_header("X-A", "b");
    assert_eq!(error_of(&later), BuildError::IllegalTransition);
}

#[test]
fn parameter_kind_must_match() {
    let g = Github::new("t");
    let b = g.get().repos().step(Edge::Owner);
    assert_eq!(error_of(&b), BuildError::MissingParameter);
    let b = g.get().step_with(Edge::Repos, "x");
    assert_eq!(error_of(&b), BuildError::UnexpectedParameter);
    let b = g.get().step(Edge::Repos).step_with(Edge::Owner, "o");
    assert_eq!(url_of(&b), "https://api.github.com/repos/o");
}

#[test]
fn custom_endpoint_joins_with_one_slash() {
    let g = Github::new("t");
    let b = g.get().custom_endpoint("repos/mgattozzi/github-rs");
    assert_eq!(b.node, Node::Custom);
    assert_eq!(url_of(&b), "https://api.github.com/repos/mgattozzi/github-rs");
    let b = g.get().custom_endpoint("/repos/x");
    assert_eq!(url_of(&b), "https://api.github.com/repos/x");
    let b = g.get().user().custom_endpoint("x");
    assert_eq!(error_of(&b), BuildError::IllegalTransition);
    let b = g.get().custom_endpoint("a b");
    assert_eq!(error_of(&b), BuildError::InvalidUrl);
}

#[test]
fn set_header_overwrites_by_name() {
    let g = Github::new("t");
    let b = g
        .get()
        .custom_endpoint("meta")
        .set_header("X-Preview", "one")
        .set_header("x-preview", "two")
        .set_header("Accept", "application/vnd.github.mercy-preview+json");
    let req = b.request.unwrap();
    assert_eq!(header(&req, "x-preview"), Some("two".to_string()));
    assert_eq!(
        header(&req, "accept"),
        Some("application/vnd.github.mercy-preview+json".to_string())
    );
    assert_eq!(req.headers.len(), 5);
}

#[test]
fn bad_header_fails_the_build() {
    let g = Github::new("t");
    assert_eq!(error_of(&g.get().set_header("bad name", "v")), BuildError::InvalidHeader);
    assert_eq!(error_of(&g.get().set_header("", "v")), BuildError::InvalidHeader);
    assert_eq!(error_of(&g.get().set_header("x-a", "v\r\n")), BuildError::InvalidHeader);
    assert_eq!(error_of(&g.get().set_etag("a\u{7f}")), BuildError::InvalidHeader);
}

#[test]
fn etag_becomes_if_none_match() {
    let g = Github::new("t");
    let b = g.get().set_etag("abc123").repos().owner("o").repo("r");
    let req = prepare(b).unwrap();
    assert_eq!(header(&req, "if-none-match"), Some("abc123".to_string()));
    let b = g.get().set_etag("first").set_etag("abc123");
    let req = b.request.unwrap();
    assert_eq!(header(&req, "if-none-match"), Some("abc123".to_string()));
    assert_eq!(req.headers.len(), 5);
}

#[test]
fn prepare_checks_endpoints() {
    let g = Github::new("t");
    assert!(matches!(prepare(g.get().repos()), Err(Error::Build(BuildError::NotAnEndpoint))));
    assert!(matches!(prepare(g.put_empty().user()), Err(Error::Build(BuildError::NotAnEndpoint))));
    assert!(matches!(
        prepare(g.get().repos().repos()),
        Err(Error::Build(BuildError::IllegalTransition))
    ));
    let req = prepare(g.get().user()).unwrap();
    assert_eq!(req.url, "https://api.github.com/user");
    let req = prepare(g.put_empty().user().following().username("octocat")).unwrap();
    assert_eq!(req.method, Method::Put);
    assert_eq!(req.url, "https://api.github.com/user/following/octocat");
}

#[test]
fn json_body_is_attached() {
    let g = Github::new("t");
    let req = g.post(&serde_json::Value::Bool(true)).user().repos().request.unwrap();
    assert_eq!(req.method, Method::Post);
    assert_eq!(req.body, b"true".to_vec());
    let req = g.patch(&serde_json::Value::from(7)).request.unwrap();
    assert_eq!(req.method, Method::Patch);
    assert_eq!(req.body, b"7".to_vec());
    let req = g.put(&serde_json::Value::String("x".to_string())).request.unwrap();
    assert_eq!(req.body, b"\"x\"".to_vec());
    let req = g.delete(&serde_json::Value::Null).request.unwrap();
    assert_eq!(req.body, b"null".to_vec());
}

#[test]
fn missing_body_fails_with_serialize() {
    let g = Github::new("t");
    assert_eq!(error_of(&g.put_empty().with_body(None)), BuildError::Serialize);
    let req = g.put_empty().with_body(Some(vec![1, 2])).request.unwrap();
    assert_eq!(req.body, vec![1, 2]);
    assert_eq!(error_of(&g.get().with_body(Some(vec![1]))), BuildError::IllegalTransition);
}
