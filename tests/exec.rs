use github_rs::client::{Github, PendingRequest};
use github_rs::exec::{finish_response, prepare, Error, PageItem, PageOutcome, PageStep, Paginator};
use github_rs::graph::Method;
use github_rs::headers::{etag, get_header, parse_u32, rate_limit_remaining, Header};
use github_rs::links::{next_link, parse_link_header, split};
use github_rs::text::{escape_component, url_add_query, url_join};

fn h(name: &str, value: &str) -> Header {
    Header { name: name.to_string(), value: value.to_string() }
}

fn link_to(url: &str) -> Header {
    h("link", &format!("<{}>; rel=\"next\", <https://api.github.com/x?page=9>; rel=\"last\"", url))
}

fn first_request() -> PendingRequest {
    let g = Github::new("t");
    prepare(g.get().orgs().org("rust-lang").repos()).unwrap()
}

#[test]
fn empty_body_gives_no_payload() {
    let r = finish_response(vec![h("etag", "\"x\"")], 304, b"").unwrap();
    assert!(r.payload.is_none());
    assert_eq!(r.status, 304);
    assert_eq!(r.headers.len(), 1);
}

#[test]
fn json_body_is_decoded() {
    let r = finish_response(Vec::new(), 200, b"{\"a\": [1, 2]}").unwrap();
    let v = r.payload.unwrap();
    assert_eq!(v["a"][1], serde_json::Value::from(2));
}

#[test]
fn error_status_passes_through() {
    let r = finish_response(Vec::new(), 404, b"{\"message\":\"Not Found\"}").unwrap();
    assert_eq!(r.status, 404);
    assert!(r.payload.is_some());
}

#[test]
fn bad_json_is_a_decode_error() {
    let r = finish_response(Vec::new(), 200, b"{not json");
    assert!(matches!(r, Err(Error::Decode(_))));
}

#[test]
fn etag_and_rate_limit_are_read() {
    let hs = vec![h("etag", "W/\"abc\""), h("x-ratelimit-remaining", "4999")];
    assert_eq!(etag(&hs), Some("W/\"abc\"".to_string()));
    assert_eq!(rate_limit_remaining(&hs), Some(4999));
    assert_eq!(etag(&Vec::new()), None);
    assert_eq!(rate_limit_remaining(&Vec::new()), None);
    assert_eq!(rate_limit_remaining(&vec![h("x-ratelimit-remaining", "lots")]), None);
}

#[test]
fn rate_limit_equal_across_a_not_modified_response() {
    let before = vec![h("etag", "\"abc123\""), h("x-ratelimit-remaining", "4998")];
    let g = Github::new("t");
    let req = prepare(g.get().set_etag(&etag(&before).unwrap()).user()).unwrap();
    assert_eq!(get_header(&req.headers, &"if-none-match".to_string()), Some("\"abc123\"".to_string()));
    let after = finish_response(
        vec![h("etag", "\"abc123\""), h("x-ratelimit-remaining", "4998")],
        304,
        b"",
    )
    .unwrap();
    assert_eq!(after.status, 304);
    assert_eq!(rate_limit_remaining(&before), rate_limit_remaining(&after.headers));
}

#[test]
fn decimal_parsing_limits() {
    assert_eq!(parse_u32("0"), Some(0));
    assert_eq!(parse_u32("4294967295"), Some(4294967295));
    assert_eq!(parse_u32("4294967296"), None);
    assert_eq!(parse_u32("99999999999"), None);
    assert_eq!(parse_u32(""), None);
    assert_eq!(parse_u32("12a"), None);
    assert_eq!(parse_u32("-1"), None);
}

#[test]
fn link_header_entries() {
    let v = "<https://api.github.com/x?page=2>; rel=\"next\", <https://api.github.com/x?page=5>; rel=\"last\"";
    let ls = parse_link_header(v);
    assert_eq!(ls.len(), 2);
    assert_eq!(ls[0].rel, "next");
    assert_eq!(ls[0].url, "https://api.github.com/x?page=2");
    assert_eq!(ls[1].rel, "last");
    assert_eq!(ls[1].url, "https://api.github.com/x?page=5");
    let ls = parse_link_header("garbage, <u>; rel=\"prev\"");
    assert_eq!(ls.len(), 1);
    assert_eq!(ls[0].rel, "prev");
    assert_eq!(ls[0].url, "u");
}

#[test]
fn next_link_found_only_when_present() {
    assert_eq!(next_link(&vec![link_to("https://a/b?page=3")]), Some("https://a/b?page=3".to_string()));
    assert_eq!(next_link(&vec![h("link", "<https://a/b>; rel=\"last\"")]), None);
    assert_eq!(next_link(&Vec::new()), None);
}

#[test]
fn split_keeps_empty_pieces() {
    assert_eq!(split("a,,b", ','), vec!["a".to_string(), String::new(), "b".to_string()]);
    assert_eq!(split("", ','), vec![String::new()]);
}

#[test]
fn text_helpers() {
    assert_eq!(escape_component("a b"), "a%20b");
    assert_eq!(escape_component("~._-"), "~._-");
    assert_eq!(url_join("https://x/", "/y"), "https://x/y");
    assert_eq!(url_join("https://x//", "y"), "https://x/y");
    assert_eq!(url_add_query("https://x/y", "q", "1"), "https://x/y?q=1");
    assert_eq!(url_add_query("https://x/y?q=1", "sort", "stars"), "https://x/y?q=1&sort=stars");
}

fn page(headers: Vec<Header>, items: Option<Vec<u32>>) -> PageOutcome<u32> {
    PageOutcome::Page { headers, status: 200, items }
}

#[test]
fn three_pages_are_concatenated() {
    let first = first_request();
    let p: Paginator<u32> = Paginator::new(&first);
    let (p, req2) = match p.on_outcome(page(vec![link_to("https://api.github.com/x?page=2")], Some(vec![1, 2]))) {
        PageStep::Fetch(p, r) => (p, r),
        PageStep::Finished(_) => panic!("expected a second page"),
    };
    assert_eq!(req2.url, "https://api.github.com/x?page=2");
    assert_eq!(req2.method, Method::Get);
    assert_eq!(req2.headers.len(), first.headers.len());
    assert!(req2.body.is_empty());
    let (p, req3) = match p.on_outcome(page(vec![link_to("https://api.github.com/x?page=3")], Some(vec![3]))) {
        PageStep::Fetch(p, r) => (p, r),
        PageStep::Finished(_) => panic!("expected a third page"),
    };
    assert_eq!(req3.url, "https://api.github.com/x?page=3");
    let items: Vec<PageItem<u32>> = match p.on_outcome(page(vec![h("x-page", "3")], Some(vec![4, 5]))) {
        PageStep::Finished(Ok(items)) => items,
        _ => panic!("expected the end"),
    };
    let values: Vec<u32> = items.iter().map(|i| i.item).collect();
    assert_eq!(values, vec![1, 2, 3, 4, 5]);
    assert_eq!(items[4].headers[0].name, "x-page");
    assert_eq!(items[0].headers[0].name, "link");
}

#[test]
fn failed_second_page_discards_first() {
    let first = first_request();
    let p: Paginator<u32> = Paginator::new(&first);
    let p = match p.on_outcome(page(vec![link_to("https://api.github.com/x?page=2")], Some(vec![1, 2]))) {
        PageStep::Fetch(p, _) => p,
        PageStep::Finished(_) => panic!("expected a second page"),
    };
    match p.on_outcome(PageOutcome::Failed(Error::Transport("reset".to_string()))) {
        PageStep::Finished(Err(Error::Transport(m))) => assert_eq!(m, "reset"),
        _ => panic!("expected the page-2 error"),
    }
}

#[test]
fn empty_payload_and_empty_next_end_pagination() {
    let first = first_request();
    let p: Paginator<u32> = Paginator::new(&first);
    let p = match p.on_outcome(page(vec![link_to("https://api.github.com/x?page=2")], None)) {
        PageStep::Fetch(p, _) => p,
        PageStep::Finished(_) => panic!("expected a second page"),
    };
    match p.on_outcome(page(vec![h("link", "<>; rel=\"next\"")], Some(vec![7]))) {
        PageStep::Finished(Ok(items)) => {
            assert_eq!(items.len(), 1);
            assert_eq!(items[0].item, 7);
        }
        _ => panic!("expected the end"),
    }
}
