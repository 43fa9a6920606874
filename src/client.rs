//! The request builder: a client holding the credential, root builders per
//! HTTP method, and the transitions that walk the endpoint graph while the
//! URL grows, or carry the first failure along unchanged.
use vstd::prelude::*;
use vstd::string::*;
use vstd::utf8::encode_utf8;
use crate::graph::{
    advance, edge_text, fragment, fragment_of, next_node, text, Edge, Fragment, Method, Node,
};
use crate::headers::{
    canonical_name, header_value, header_value_accepted, is_token_char, lemma_with_header,
    names_unique, pairs, parse_header_name, set_header_in, valid_value, with_header, Header,
};
use crate::search::{OrderBy, SortBy};
use crate::text::{
    escape_component, escaped, escape_byte, is_escape_char, join_segment, lemma_escaped_chars,
    trim_end_slashes, trim_start_slashes, url_add_query, url_join, with_query, unescaped,
    is_unreserved_char, lemma_unescape_escaped, lemma_unreserved_unchanged,
};

verus! {

/// serde_json's JSON value, carried through as an opaque body or payload.
#[verifier::external_type_specification]
#[verifier::external_body]
pub struct ExJsonValue(serde_json::Value);

/// Whether hyper's URI parser accepts a text.
pub uninterp spec fn uri_accepts(s: Seq<char>) -> bool;

/// Relies on `hyper::Uri`'s `FromStr` (http 0.1): whether the text parses
/// as a URI. The answer depends on the text alone.
#[verifier::external_body]
pub(crate) fn uri_accepted(s: &str) -> (r: bool)
    ensures
        r == uri_accepts(s@),
{
    s.parse::<hyper::Uri>().is_ok()
}

/// Relies on `serde_json::to_vec` applied to a `serde_json::Value`: the
/// value's `Serialize` impl writes only string keys and finite numbers, and
/// writing to a `Vec` cannot fail, so the encoding always succeeds.
#[verifier::external_body]
fn encode_json(v: &serde_json::Value) -> (r: Option<Vec<u8>>)
    ensures
        r is Some,
{
    serde_json::to_vec(v).ok()
}

/// Why a request could not be built.
#[derive(Clone, Copy, Debug, PartialEq, Eq, Structural)]
pub enum BuildError {
    /// The base URL failed to parse.
    BaseUrl,
    /// The URL failed to parse after a transition.
    InvalidUrl,
    /// The current state offers no such transition.
    IllegalTransition,
    /// The transition needs a parameter and none was given.
    MissingParameter,
    /// The transition takes no parameter and one was given.
    UnexpectedParameter,
    /// A header name or value is not allowed in a request.
    InvalidHeader,
    /// The body could not be serialized to JSON.
    Serialize,
    /// No request of this method may be sent from the state reached.
    NotAnEndpoint,
}

/// A request ready to be sent.
pub struct PendingRequest {
    pub method: Method,
    pub url: String,
    pub headers: Vec<Header>,
    pub body: Vec<u8>,
}

/// What a request holds, as plain values.
pub struct RequestView {
    pub method: Method,
    pub url: Seq<char>,
    pub headers: Seq<(Seq<char>, Seq<char>)>,
    pub body: Seq<u8>,
}

impl View for PendingRequest {
    type V = RequestView;

    open spec fn view(&self) -> RequestView {
        RequestView {
            method: self.method,
            url: self.url@,
            headers: pairs(self.headers@),
            body: self.body@,
        }
    }
}

/// A request under construction: the state reached, and the request so far
/// or the first error met.
pub struct QueryBuilder {
    pub node: Node,
    pub request: Result<PendingRequest, BuildError>,
}

/// What a builder holds, as plain values.
pub struct BuilderView {
    pub node: Node,
    pub request: Result<RequestView, BuildError>,
}

impl View for QueryBuilder {
    type V = BuilderView;

    open spec fn view(&self) -> BuilderView {
        BuilderView {
            node: self.node,
            request: match self.request {
                Ok(r) => Ok(r@),
                Err(e) => Err(e),
            },
        }
    }
}

/// Builder for a GET request.
pub type GetQueryBuilder = QueryBuilder;

/// Builder for a PUT request.
pub type PutQueryBuilder = QueryBuilder;

/// Builder for a POST request.
pub type PostQueryBuilder = QueryBuilder;

/// Builder for a PATCH request.
pub type PatchQueryBuilder = QueryBuilder;

/// Builder for a DELETE request.
pub type DeleteQueryBuilder = QueryBuilder;

/// Builder for a request against an endpoint given as a path.
pub type CustomQuery = QueryBuilder;

/// Header names are unique in a built request.
pub open spec fn builder_wf(b: BuilderView) -> bool {
    b.request is Ok ==> names_unique(b.request->Ok_0.headers)
}

pub open spec fn fail(b: BuilderView, e: BuildError) -> BuilderView {
    BuilderView { node: b.node, request: Err(e) }
}

/// The URL after appending the fragment of `e`, or why it cannot be had.
pub open spec fn fragment_url(url: Seq<char>, e: Edge, param: Option<Seq<char>>) -> Result<
    Seq<char>,
    BuildError,
> {
    match fragment_of(e) {
        Fragment::Segment => match param {
            None => Ok(join_segment(url, edge_text(e))),
            Some(_) => Err(BuildError::UnexpectedParameter),
        },
        Fragment::PathParam => match param {
            Some(p) => Ok(join_segment(url, escaped(encode_utf8(p)))),
            None => Err(BuildError::MissingParameter),
        },
        Fragment::QueryParam => match param {
            Some(p) => Ok(with_query(url, edge_text(e), escaped(encode_utf8(p)))),
            None => Err(BuildError::MissingParameter),
        },
    }
}

/// One transition: a failed builder is returned as it is; otherwise the
/// transition must be in the table, the parameter must match its kind, and
/// the new URL must parse.
pub open spec fn step_spec(b: BuilderView, e: Edge, param: Option<Seq<char>>) -> BuilderView {
    match b.request {
        Err(_) => b,
        Ok(req) => match next_node(req.method, b.node, e) {
            None => fail(b, BuildError::IllegalTransition),
            Some(n) => match fragment_url(req.url, e, param) {
                Err(err) => fail(b, err),
                Ok(u) => if uri_accepts(u) {
                    BuilderView { node: n, request: Ok(RequestView { url: u, ..req }) }
                } else {
                    fail(b, BuildError::InvalidUrl)
                },
            },
        },
    }
}

/// Setting a header on a builder.
pub open spec fn set_header_spec(b: BuilderView, name: Seq<char>, value: Seq<char>) -> BuilderView {
    match b.request {
        Err(_) => b,
        Ok(req) => match canonical_name(name) {
            Some(n) => if valid_value(value) && name.len() < 65536 {
                BuilderView {
                    node: b.node,
                    request: Ok(RequestView { headers: with_header(req.headers, n, value), ..req }),
                }
            } else {
                fail(b, BuildError::InvalidHeader)
            },
            None => fail(b, BuildError::InvalidHeader),
        },
    }
}

/// Sorting search results: only a query of the key's own area can be
/// sorted by it.
pub open spec fn sort_spec(b: BuilderView, key: SortBy) -> BuilderView {
    match b.request {
        Err(_) => b,
        Ok(_) => if b.node == Node::SearchQ(key.spec_area()) {
            step_spec(b, Edge::Sort, Some(key.spec_text()))
        } else {
            fail(b, BuildError::IllegalTransition)
        },
    }
}

/// Name of the conditional-request header.
pub open spec fn if_none_match() -> Seq<char> {
    "if-none-match"@
}

/// Setting the conditional-request header.
pub open spec fn set_etag_spec(b: BuilderView, tag: Seq<char>) -> BuilderView {
    match b.request {
        Err(_) => b,
        Ok(req) => if valid_value(tag) {
            BuilderView {
                node: b.node,
                request: Ok(
                    RequestView { headers: with_header(req.headers, if_none_match(), tag), ..req },
                ),
            }
        } else {
            fail(b, BuildError::InvalidHeader)
        },
    }
}

/// Attaching an encoded body; `None` stands for a failed serialization.
/// GET requests take no body.
pub open spec fn with_body_spec(b: BuilderView, body: Option<Seq<u8>>) -> BuilderView {
    match b.request {
        Err(_) => b,
        Ok(req) => if req.method == Method::Get {
            fail(b, BuildError::IllegalTransition)
        } else {
            match body {
            Some(bytes) => BuilderView {
                node: b.node,
                request: Ok(RequestView { body: bytes, ..req }),
            },
                None => fail(b, BuildError::Serialize),
            }
        },
    }
}

/// Switching to a path not modelled by the endpoint graph.
pub open spec fn custom_spec(b: BuilderView, path: Seq<char>) -> BuilderView {
    match b.request {
        Err(_) => b,
        Ok(req) => if b.node != Node::Root {
            fail(b, BuildError::IllegalTransition)
        } else if uri_accepts(join_segment(req.url, path)) {
            BuilderView {
                node: Node::Custom,
                request: Ok(RequestView { url: join_segment(req.url, path), ..req }),
            }
        } else {
            fail(b, BuildError::InvalidUrl)
        },
    }
}

pub open spec fn base_url() -> Seq<char> {
    "https://api.github.com"@
}

pub open spec fn authorization(token: Seq<char>) -> Seq<char> {
    "token "@ + token
}

/// The headers that requests start with: content type and user agent, the
/// media type where `accept` holds, then the credential.
pub open spec fn standard_headers(auth: Seq<char>, accept: bool) -> Seq<(Seq<char>, Seq<char>)> {
    let h = with_header(
        with_header(Seq::empty(), "content-type"@, "application/json"@),
        "user-agent"@,
        "github-rs"@,
    );
    let h = if accept {
        with_header(h, "accept"@, "application/vnd.github.v3+json"@)
    } else {
        h
    };
    with_header(h, "authorization"@, auth)
}

/// The headers that every REST request starts with.
pub open spec fn root_headers(token: Seq<char>) -> Seq<(Seq<char>, Seq<char>)> {
    standard_headers(authorization(token), true)
}

/// Builds the standard headers.
pub(crate) fn standard_header_list(auth: String, accept: bool) -> (r: Vec<Header>)
    ensures
        pairs(r@) == standard_headers(auth@, accept),
        names_unique(pairs(r@)),
{
    let ghost a = auth@;
    let mut headers: Vec<Header> = Vec::new();
    assert(pairs(headers@) =~= Seq::<(Seq<char>, Seq<char>)>::empty());
    proof {
        lemma_with_header(Seq::empty(), "content-type"@, "application/json"@);
    }
    set_header_in(&mut headers, "content-type".to_owned(), "application/json".to_owned());
    proof {
        lemma_with_header(pairs(headers@), "user-agent"@, "github-rs"@);
    }
    set_header_in(&mut headers, "user-agent".to_owned(), "github-rs".to_owned());
    if accept {
        proof {
            lemma_with_header(pairs(headers@), "accept"@, "application/vnd.github.v3+json"@);
        }
        set_header_in(
            &mut headers,
            "accept".to_owned(),
            "application/vnd.github.v3+json".to_owned(),
        );
    }
    proof {
        lemma_with_header(pairs(headers@), "authorization"@, a);
    }
    set_header_in(&mut headers, "authorization".to_owned(), auth);
    headers
}

/// The root builder of a method: the base URL and the standard headers, or
/// the error met while setting them up.
pub open spec fn root_spec(m: Method, token: Seq<char>) -> BuilderView {
    if !uri_accepts(base_url()) {
        BuilderView { node: Node::Root, request: Err(BuildError::BaseUrl) }
    } else if !valid_value(authorization(token)) {
        BuilderView { node: Node::Root, request: Err(BuildError::InvalidHeader) }
    } else {
        BuilderView {
            node: Node::Root,
            request: Ok(
                RequestView {
                    method: m,
                    url: base_url(),
                    headers: root_headers(token),
                    body: Seq::empty(),
                },
            ),
        }
    }
}

fn root(m: Method, token: &str) -> (r: QueryBuilder)
    ensures
        r@ == root_spec(m, token@),
        builder_wf(r@),
{
    let base = "https://api.github.com";
    if !uri_accepted(base) {
        return QueryBuilder { node: Node::Root, request: Err(BuildError::BaseUrl) };
    }
    let mut auth = "token ".to_owned();
    auth.append(token);
    if !header_value_accepted(auth.as_str()) {
        return QueryBuilder { node: Node::Root, request: Err(BuildError::InvalidHeader) };
    }
    let headers = standard_header_list(auth, true);
    QueryBuilder {
        node: Node::Root,
        request: Ok(
            PendingRequest { method: m, url: base.to_owned(), headers, body: Vec::new() },
        ),
    }
}

impl QueryBuilder {
    /// Takes the transition `e`, with `param` where it needs one.
    fn go(self, e: Edge, param: Option<&str>) -> (r: QueryBuilder)
        ensures
            r@ == step_spec(
                self@,
                e,
                match param {
                    Some(p) => Some(p@),
                    None => None,
                },
            ),
            builder_wf(self@) ==> builder_wf(r@),
    {
        let QueryBuilder { node, request } = self;
        let req = match request {
            Err(err) => return QueryBuilder { node, request: Err(err) },
            Ok(req) => req,
        };
        let next = match advance(req.method, node, e) {
            None => return QueryBuilder { node, request: Err(BuildError::IllegalTransition) },
            Some(n) => n,
        };
        let url = match (fragment(e), param) {
            (Fragment::Segment, None) => url_join(req.url.as_str(), text(e)),
            (Fragment::Segment, Some(_)) => {
                return QueryBuilder { node, request: Err(BuildError::UnexpectedParameter) };
            },
            (Fragment::PathParam, Some(p)) => {
                let esc = escape_component(p);
                url_join(req.url.as_str(), esc.as_str())
            },
            (Fragment::QueryParam, Some(p)) => {
                let esc = escape_component(p);
                url_add_query(req.url.as_str(), text(e), esc.as_str())
            },
            (_, None) => {
                return QueryBuilder { node, request: Err(BuildError::MissingParameter) };
            },
        };
        if !uri_accepted(url.as_str()) {
            return QueryBuilder { node, request: Err(BuildError::InvalidUrl) };
        }
        QueryBuilder {
            node: next,
            request: Ok(
                PendingRequest { method: req.method, url, headers: req.headers, body: req.body },
            ),
        }
    }

    /// Takes a transition that appends a fixed segment.
    pub fn step(self, e: Edge) -> (r: QueryBuilder)
        ensures
            r@ == step_spec(self@, e, None),
            builder_wf(self@) ==> builder_wf(r@),
    {
        self.go(e, None)
    }

    /// Takes a transition that appends a caller-supplied parameter.
    pub fn step_with(self, e: Edge, param: &str) -> (r: QueryBuilder)
        ensures
            r@ == step_spec(self@, e, Some(param@)),
            builder_wf(self@) ==> builder_wf(r@),
    {
        self.go(e, Some(param))
    }

    /// Switches to an endpoint not covered by the graph, given as a path such
    /// as `repos/owner/name`. Only available from a root builder.
    pub fn custom_endpoint(self, endpoint_str: &str) -> (r: CustomQuery)
        ensures
            r@ == custom_spec(self@, endpoint_str@),
            builder_wf(self@) ==> builder_wf(r@),
    {
        let QueryBuilder { node, request } = self;
        let req = match request {
            Err(err) => return QueryBuilder { node, request: Err(err) },
            Ok(req) => req,
        };
        if node != Node::Root {
            return QueryBuilder { node, request: Err(BuildError::IllegalTransition) };
        }
        let url = url_join(req.url.as_str(), endpoint_str);
        if !uri_accepted(url.as_str()) {
            return QueryBuilder { node, request: Err(BuildError::InvalidUrl) };
        }
        QueryBuilder {
            node: Node::Custom,
            request: Ok(
                PendingRequest { method: req.method, url, headers: req.headers, body: req.body },
            ),
        }
    }

    /// Sets a header, overwriting an earlier value of the same name.
    pub fn set_header(self, header_name: &str, value: &str) -> (r: QueryBuilder)
        ensures
            r@ == set_header_spec(self@, header_name@, value@),
            builder_wf(self@) ==> builder_wf(r@),
    {
        let QueryBuilder { node, request } = self;
        let mut req = match request {
            Err(err) => return QueryBuilder { node, request: Err(err) },
            Ok(req) => req,
        };
        if !header_name.is_ascii() || header_name.unicode_len() >= 65536 {
            proof {
                if !header_name.is_ascii() {
                    let i = choose|i: int|
                        0 <= i < header_name@.len() && !('\0' <= #[trigger] header_name@[i]
                            <= '\u{7f}');
                    assert(!is_token_char(header_name@[i]));
                }
            }
            return QueryBuilder { node, request: Err(BuildError::InvalidHeader) };
        }
        proof {
            vstd::utf8::is_ascii_chars_encode_utf8(header_name@);
        }
        let name = match parse_header_name(header_name) {
            None => return QueryBuilder { node, request: Err(BuildError::InvalidHeader) },
            Some(n) => n,
        };
        if !header_value_accepted(value) {
            return QueryBuilder { node, request: Err(BuildError::InvalidHeader) };
        }
        proof {
            if names_unique(pairs(req.headers@)) {
                lemma_with_header(pairs(req.headers@), name@, value@);
            }
        }
        set_header_in(&mut req.headers, name, value.to_owned());
        QueryBuilder { node, request: Ok(req) }
    }

    /// Adds an entity tag as the `If-None-Match` header, making the request
    /// conditional.
    pub fn set_etag(self, tag: &str) -> (r: QueryBuilder)
        ensures
            r@ == set_etag_spec(self@, tag@),
            builder_wf(self@) ==> builder_wf(r@),
    {
        let QueryBuilder { node, request } = self;
        let mut req = match request {
            Err(err) => return QueryBuilder { node, request: Err(err) },
            Ok(req) => req,
        };
        if !header_value_accepted(tag) {
            return QueryBuilder { node, request: Err(BuildError::InvalidHeader) };
        }
        proof {
            if names_unique(pairs(req.headers@)) {
                lemma_with_header(pairs(req.headers@), if_none_match(), tag@);
            }
        }
        set_header_in(&mut req.headers, "if-none-match".to_owned(), tag.to_owned());
        QueryBuilder { node, request: Ok(req) }
    }

    /// Attaches an encoded body; `None` stands for a value that could not be
    /// serialized, which fails the build. A GET request takes no body.
    pub fn with_body(self, body: Option<Vec<u8>>) -> (r: QueryBuilder)
        ensures
            r@ == with_body_spec(
                self@,
                match body {
                    Some(b) => Some(b@),
                    None => None,
                },
            ),
            builder_wf(self@) ==> builder_wf(r@),
    {
        let QueryBuilder { node, request } = self;
        let req = match request {
            Err(err) => return QueryBuilder { node, request: Err(err) },
            Ok(req) => req,
        };
        if req.method == Method::Get {
            return QueryBuilder { node, request: Err(BuildError::IllegalTransition) };
        }
        match body {
            Some(bytes) => QueryBuilder {
                node,
                request: Ok(
                    PendingRequest {
                        method: req.method,
                        url: req.url,
                        headers: req.headers,
                        body: bytes,
                    },
                ),
            },
            None => QueryBuilder { node, request: Err(BuildError::Serialize) },
        }
    }
}

impl QueryBuilder {
    /// Appends the `user` segment.
    pub fn user(self) -> (r: QueryBuilder)
        ensures
            r@ == step_spec(self@, Edge::User, None),
            builder_wf(self@) ==> builder_wf(r@),
    {
        self.go(Edge::User, None)
    }

    /// Appends the `users` segment.
    pub fn users(self) -> (r: QueryBuilder)
        ensures
            r@ == step_spec(self@, Edge::Users, None),
            builder_wf(self@) ==> builder_wf(r@),
    {
        self.go(Edge::Users, None)
    }

    /// Appends the `repos` segment.
    pub fn repos(self) -> (r: QueryBuilder)
        ensures
            r@ == step_spec(self@, Edge::Repos, None),
            builder_wf(self@) ==> builder_wf(r@),
    {
        self.go(Edge::Repos, None)
    }

    /// Appends the `orgs` segment.
    pub fn orgs(self) -> (r: QueryBuilder)
        ensures
            r@ == step_spec(self@, Edge::Orgs, None),
            builder_wf(self@) ==> builder_wf(r@),
    {
        self.go(Edge::Orgs, None)
    }

    /// Appends the `teams` segment.
    pub fn teams(self) -> (r: QueryBuilder)
        ensures
            r@ == step_spec(self@, Edge::Teams, None),
            builder_wf(self@) ==> builder_wf(r@),
    {
        self.go(Edge::Teams, None)
    }

    /// Appends the `gists` segment.
    pub fn gists(self) -> (r: QueryBuilder)
        ensures
            r@ == step_spec(self@, Edge::Gists, None),
            builder_wf(self@) ==> builder_wf(r@),
    {
        self.go(Edge::Gists, None)
    }

    /// Appends the `notifications` segment.
    pub fn notifications(self) -> (r: QueryBuilder)
        ensures
            r@ == step_spec(self@, Edge::Notifications, None),
            builder_wf(self@) ==> builder_wf(r@),
    {
        self.go(Edge::Notifications, None)
    }

    /// Appends the `emojis` segment.
    pub fn emojis(self) -> (r: QueryBuilder)
        ensures
            r@ == step_spec(self@, Edge::Emojis, None),
            builder_wf(self@) ==> builder_wf(r@),
    {
        self.go(Edge::Emojis, None)
    }

    /// Appends the `events` segment.
    pub fn events(self) -> (r: QueryBuilder)
        ensures
            r@ == step_spec(self@, Edge::Events, None),
            builder_wf(self@) ==> builder_wf(r@),
    {
        self.go(Edge::Events, None)
    }

    /// Appends the `feeds` segment.
    pub fn feeds(self) -> (r: QueryBuilder)
        ensures
            r@ == step_spec(self@, Edge::Feeds, None),
            builder_wf(self@) ==> builder_wf(r@),
    {
        self.go(Edge::Feeds, None)
    }

    /// Appends the `meta` segment.
    pub fn meta(self) -> (r: QueryBuilder)
        ensures
            r@ == step_spec(self@, Edge::Meta, None),
            builder_wf(self@) ==> builder_wf(r@),
    {
        self.go(Edge::Meta, None)
    }

    /// Appends the `rate_limit` segment.
    pub fn rate_limit(self) -> (r: QueryBuilder)
        ensures
            r@ == step_spec(self@, Edge::RateLimit, None),
            builder_wf(self@) ==> builder_wf(r@),
    {
        self.go(Edge::RateLimit, None)
    }

    /// Appends the `search` segment.
    pub fn search(self) -> (r: QueryBuilder)
        ensures
            r@ == step_spec(self@, Edge::Search, None),
            builder_wf(self@) ==> builder_wf(r@),
    {
        self.go(Edge::Search, None)
    }

    /// Appends the `followers` segment.
    pub fn followers(self) -> (r: QueryBuilder)
        ensures
            r@ == step_spec(self@, Edge::Followers, None),
            builder_wf(self@) ==> builder_wf(r@),
    {
        self.go(Edge::Followers, None)
    }

    /// Appends the `following` segment.
    pub fn following(self) -> (r: QueryBuilder)
        ensures
            r@ == step_spec(self@, Edge::Following, None),
            builder_wf(self@) ==> builder_wf(r@),
    {
        self.go(Edge::Following, None)
    }

    /// Appends the `starred` segment.
    pub fn starred(self) -> (r: QueryBuilder)
        ensures
            r@ == step_spec(self@, Edge::Starred, None),
            builder_wf(self@) ==> builder_wf(r@),
    {
        self.go(Edge::Starred, None)
    }

    /// Appends the `emails` segment.
    pub fn emails(self) -> (r: QueryBuilder)
        ensures
            r@ == step_spec(self@, Edge::Emails, None),
            builder_wf(self@) ==> builder_wf(r@),
    {
        self.go(Edge::Emails, None)
    }

    /// Appends the `keys` segment.
    pub fn keys(self) -> (r: QueryBuilder)
        ensures
            r@ == step_spec(self@, Edge::Keys, None),
            builder_wf(self@) ==> builder_wf(r@),
    {
        self.go(Edge::Keys, None)
    }

    /// Appends the `issues` segment.
    pub fn issues(self) -> (r: QueryBuilder)
        ensures
            r@ == step_spec(self@, Edge::Issues, None),
            builder_wf(self@) ==> builder_wf(r@),
    {
        self.go(Edge::Issues, None)
    }

    /// Appends the `subscriptions` segment.
    pub fn subscriptions(self) -> (r: QueryBuilder)
        ensures
            r@ == step_spec(self@, Edge::Subscriptions, None),
            builder_wf(self@) ==> builder_wf(r@),
    {
        self.go(Edge::Subscriptions, None)
    }

    /// Appends the `blocks` segment.
    pub fn blocks(self) -> (r: QueryBuilder)
        ensures
            r@ == step_spec(self@, Edge::Blocks, None),
            builder_wf(self@) ==> builder_wf(r@),
    {
        self.go(Edge::Blocks, None)
    }

    /// Appends the `gpg_keys` segment.
    pub fn gpg_keys(self) -> (r: QueryBuilder)
        ensures
            r@ == step_spec(self@, Edge::GpgKeys, None),
            builder_wf(self@) ==> builder_wf(r@),
    {
        self.go(Edge::GpgKeys, None)
    }

    /// Appends the `memberships` segment.
    pub fn memberships(self) -> (r: QueryBuilder)
        ensures
            r@ == step_spec(self@, Edge::Memberships, None),
            builder_wf(self@) ==> builder_wf(r@),
    {
        self.go(Edge::Memberships, None)
    }

    /// Appends the `received_events` segment.
    pub fn received_events(self) -> (r: QueryBuilder)
        ensures
            r@ == step_spec(self@, Edge::ReceivedEvents, None),
            builder_wf(self@) ==> builder_wf(r@),
    {
        self.go(Edge::ReceivedEvents, None)
    }

    /// Appends the `received_events_public` segment.
    pub fn received_events_public(self) -> (r: QueryBuilder)
        ensures
            r@ == step_spec(self@, Edge::ReceivedEventsPublic, None),
            builder_wf(self@) ==> builder_wf(r@),
    {
        self.go(Edge::ReceivedEventsPublic, None)
    }

    /// Appends the `commits` segment.
    pub fn commits(self) -> (r: QueryBuilder)
        ensures
            r@ == step_spec(self@, Edge::Commits, None),
            builder_wf(self@) ==> builder_wf(r@),
    {
        self.go(Edge::Commits, None)
    }

    /// Appends the `branches` segment.
    pub fn branches(self) -> (r: QueryBuilder)
        ensures
            r@ == step_spec(self@, Edge::Branches, None),
            builder_wf(self@) ==> builder_wf(r@),
    {
        self.go(Edge::Branches, None)
    }

    /// Appends the `statuses` segment.
    pub fn statuses(self) -> (r: QueryBuilder)
        ensures
            r@ == step_spec(self@, Edge::Statuses, None),
            builder_wf(self@) ==> builder_wf(r@),
    {
        self.go(Edge::Statuses, None)
    }

    /// Appends the `members` segment.
    pub fn members(self) -> (r: QueryBuilder)
        ensures
            r@ == step_spec(self@, Edge::Members, None),
            builder_wf(self@) ==> builder_wf(r@),
    {
        self.go(Edge::Members, None)
    }

    /// Appends the `invitations` segment.
    pub fn invitations(self) -> (r: QueryBuilder)
        ensures
            r@ == step_spec(self@, Edge::Invitations, None),
            builder_wf(self@) ==> builder_wf(r@),
    {
        self.go(Edge::Invitations, None)
    }

    /// Appends the `star` segment.
    pub fn star(self) -> (r: QueryBuilder)
        ensures
            r@ == step_spec(self@, Edge::Star, None),
            builder_wf(self@) ==> builder_wf(r@),
    {
        self.go(Edge::Star, None)
    }

    /// Appends the `forks` segment.
    pub fn forks(self) -> (r: QueryBuilder)
        ensures
            r@ == step_spec(self@, Edge::Forks, None),
            builder_wf(self@) ==> builder_wf(r@),
    {
        self.go(Edge::Forks, None)
    }

    /// Appends the `comments` segment.
    pub fn comments(self) -> (r: QueryBuilder)
        ensures
            r@ == step_spec(self@, Edge::Comments, None),
            builder_wf(self@) ==> builder_wf(r@),
    {
        self.go(Edge::Comments, None)
    }

    /// Appends the `threads` segment.
    pub fn threads(self) -> (r: QueryBuilder)
        ensures
            r@ == step_spec(self@, Edge::Threads, None),
            builder_wf(self@) ==> builder_wf(r@),
    {
        self.go(Edge::Threads, None)
    }

    /// Appends the `subscription` segment.
    pub fn subscription(self) -> (r: QueryBuilder)
        ensures
            r@ == step_spec(self@, Edge::Subscription, None),
            builder_wf(self@) ==> builder_wf(r@),
    {
        self.go(Edge::Subscription, None)
    }

    /// Appends the `code` segment.
    pub fn code(self) -> (r: QueryBuilder)
        ensures
            r@ == step_spec(self@, Edge::Code, None),
            builder_wf(self@) ==> builder_wf(r@),
    {
        self.go(Edge::Code, None)
    }

    /// Appends the `repositories` segment.
    pub fn repositories(self) -> (r: QueryBuilder)
        ensures
            r@ == step_spec(self@, Edge::Repositories, None),
            builder_wf(self@) ==> builder_wf(r@),
    {
        self.go(Edge::Repositories, None)
    }

    /// Appends a user's login.
    pub fn username(self, username_str: &str) -> (r: QueryBuilder)
        ensures
            r@ == step_spec(self@, Edge::Username, Some(username_str@)),
            builder_wf(self@) ==> builder_wf(r@),
    {
        self.go(Edge::Username, Some(username_str))
    }

    /// Appends a repository owner.
    pub fn owner(self, owner_str: &str) -> (r: QueryBuilder)
        ensures
            r@ == step_spec(self@, Edge::Owner, Some(owner_str@)),
            builder_wf(self@) ==> builder_wf(r@),
    {
        self.go(Edge::Owner, Some(owner_str))
    }

    /// Appends a repository name.
    pub fn repo(self, repo_str: &str) -> (r: QueryBuilder)
        ensures
            r@ == step_spec(self@, Edge::Repo, Some(repo_str@)),
            builder_wf(self@) ==> builder_wf(r@),
    {
        self.go(Edge::Repo, Some(repo_str))
    }

    /// Appends an organization's login.
    pub fn org(self, org_str: &str) -> (r: QueryBuilder)
        ensures
            r@ == step_spec(self@, Edge::Org, Some(org_str@)),
            builder_wf(self@) ==> builder_wf(r@),
    {
        self.go(Edge::Org, Some(org_str))
    }

    /// Appends an identifier.
    pub fn id(self, id_str: &str) -> (r: QueryBuilder)
        ensures
            r@ == step_spec(self@, Edge::Id, Some(id_str@)),
            builder_wf(self@) ==> builder_wf(r@),
    {
        self.go(Edge::Id, Some(id_str))
    }

    /// Appends a commit hash.
    pub fn sha(self, sha_str: &str) -> (r: QueryBuilder)
        ensures
            r@ == step_spec(self@, Edge::Sha, Some(sha_str@)),
            builder_wf(self@) ==> builder_wf(r@),
    {
        self.go(Edge::Sha, Some(sha_str))
    }

    /// Appends the search terms, as the `q` query value.
    pub fn q(self, q_str: &str) -> (r: QueryBuilder)
        ensures
            r@ == step_spec(self@, Edge::Q, Some(q_str@)),
            builder_wf(self@) ==> builder_wf(r@),
    {
        self.go(Edge::Q, Some(q_str))
    }

    /// Appends a sort key, as the `sort` query value. The key must belong to
    /// the search area being queried; another area's key fails the build.
    pub fn sort(self, sort_type: SortBy) -> (r: QueryBuilder)
        ensures
            r@ == sort_spec(self@, sort_type),
            builder_wf(self@) ==> builder_wf(r@),
    {
        if self.request.is_ok() && self.node != Node::SearchQ(sort_type.area()) {
            return QueryBuilder { node: self.node, request: Err(BuildError::IllegalTransition) };
        }
        let s = sort_type.to_string();
        self.go(Edge::Sort, Some(s.as_str()))
    }

    /// Appends the result ordering, as the `order` query value.
    pub fn order(self, order_type: OrderBy) -> (r: QueryBuilder)
        ensures
            r@ == step_spec(self@, Edge::Order, Some(order_type.spec_text())),
            builder_wf(self@) ==> builder_wf(r@),
    {
        let s = order_type.to_string();
        self.go(Edge::Order, Some(s.as_str()))
    }
}

/// A client: the credential that every request is sent with.
pub struct Github {
    token: String,
}

impl View for Github {
    type V = Seq<char>;

    closed spec fn view(&self) -> Seq<char> {
        self.token@
    }
}

/// A root builder with a JSON body attached: the root as `root_spec` gives
/// it, with the encoder's bytes as body.
pub open spec fn root_with_some_body(m: Method, token: Seq<char>, r: BuilderView) -> bool {
    let root = root_spec(m, token);
    (root.request is Err ==> r == root) && (root.request is Ok ==> exists|b: Seq<u8>|
        r == with_body_spec(root, Some(b)))
}

fn root_with_json(m: Method, token: &str, body: &serde_json::Value) -> (r: QueryBuilder)
    ensures
        root_with_some_body(m, token@, r@),
        builder_wf(r@),
{
    let root = root(m, token);
    if root.request.is_err() {
        return root;
    }
    let encoded = encode_json(body);
    let ghost bytes = encoded->Some_0@;
    let r = root.with_body(encoded);
    assert(r@ == with_body_spec(root_spec(m, token@), Some(bytes)));
    r
}

impl Github {
    /// A client that authenticates with `token`.
    pub fn new(token: &str) -> (r: Github)
        ensures
            r@ == token@,
    {
        Github { token: token.to_owned() }
    }

    /// The credential in use.
    pub fn get_token(&self) -> (r: &str)
        ensures
            r@ == self@,
    {
        self.token.as_str()
    }

    /// Replaces the credential.
    pub fn set_token(&mut self, token: &str)
        ensures
            final(self)@ == token@,
    {
        self.token = token.to_owned();
    }

    /// Begins a GET request.
    pub fn get(&self) -> (r: GetQueryBuilder)
        ensures
            r@ == root_spec(Method::Get, self@),
            builder_wf(r@),
    {
        root(Method::Get, self.token.as_str())
    }

    /// Begins a PUT request without a body.
    pub fn put_empty(&self) -> (r: PutQueryBuilder)
        ensures
            r@ == root_spec(Method::Put, self@),
            builder_wf(r@),
    {
        root(Method::Put, self.token.as_str())
    }

    /// Begins a PUT request with `body` serialized as JSON.
    pub fn put(&self, body: &serde_json::Value) -> (r: PutQueryBuilder)
        ensures
            root_with_some_body(Method::Put, self@, r@),
            builder_wf(r@),
    {
        root_with_json(Method::Put, self.token.as_str(), body)
    }

    /// Begins a POST request with `body` serialized as JSON.
    pub fn post(&self, body: &serde_json::Value) -> (r: PostQueryBuilder)
        ensures
            root_with_some_body(Method::Post, self@, r@),
            builder_wf(r@),
    {
        root_with_json(Method::Post, self.token.as_str(), body)
    }

    /// Begins a PATCH request with `body` serialized as JSON.
    pub fn patch(&self, body: &serde_json::Value) -> (r: PatchQueryBuilder)
        ensures
            root_with_some_body(Method::Patch, self@, r@),
            builder_wf(r@),
    {
        root_with_json(Method::Patch, self.token.as_str(), body)
    }

    /// Begins a DELETE request with `body` serialized as JSON.
    pub fn delete(&self, body: &serde_json::Value) -> (r: DeleteQueryBuilder)
        ensures
            root_with_some_body(Method::Delete, self@, r@),
            builder_wf(r@),
    {
        root_with_json(Method::Delete, self.token.as_str(), body)
    }

    /// Begins a DELETE request without a body.
    pub fn delete_empty(&self) -> (r: DeleteQueryBuilder)
        ensures
            r@ == root_spec(Method::Delete, self@),
            builder_wf(r@),
    {
        root(Method::Delete, self.token.as_str())
    }
}


/// The builder after a chain of transitions, each an edge and its parameter.
pub open spec fn run_steps(b: BuilderView, steps: Seq<(Edge, Option<Seq<char>>)>) -> BuilderView
    decreases steps.len(),
{
    if steps.len() == 0 {
        b
    } else {
        step_spec(run_steps(b, steps.drop_last()), steps.last().0, steps.last().1)
    }
}

/// Once a build has failed, every later transition hands the builder back
/// as it is: a chain ends with exactly the first error met.
pub proof fn lemma_failure_sticks(b: BuilderView, steps: Seq<(Edge, Option<Seq<char>>)>)
    requires
        b.request is Err,
    ensures
        run_steps(b, steps) == b,
    decreases steps.len(),
{
    if steps.len() > 0 {
        lemma_failure_sticks(b, steps.drop_last());
    }
}

/// A transition that appends one non-empty path segment.
pub open spec fn is_path_step(s: (Edge, Option<Seq<char>>)) -> bool {
    (fragment_of(s.0) == Fragment::Segment && s.1 is None) || (fragment_of(s.0)
        == Fragment::PathParam && s.1 is Some && s.1->Some_0.len() > 0)
}

/// The path segment that a transition appends.
pub open spec fn piece(s: (Edge, Option<Seq<char>>)) -> Seq<char> {
    if fragment_of(s.0) == Fragment::Segment {
        edge_text(s.0)
    } else {
        escaped(encode_utf8(s.1->Some_0))
    }
}

/// The segments of a chain of path transitions, each preceded by one `/`.
pub open spec fn slash_path(steps: Seq<(Edge, Option<Seq<char>>)>) -> Seq<char>
    decreases steps.len(),
{
    if steps.len() == 0 {
        Seq::empty()
    } else {
        slash_path(steps.drop_last()) + seq!['/'] + piece(steps.last())
    }
}

proof fn lemma_edge_text_plain(e: Edge)
    requires
        fragment_of(e) == Fragment::Segment,
    ensures
        edge_text(e).len() > 0,
        forall|i: int| 0 <= i < edge_text(e).len() ==> edge_text(e)[i] != '/',
{
    reveal_strlit("user");
    reveal_strlit("users");
    reveal_strlit("repos");
    reveal_strlit("orgs");
    reveal_strlit("teams");
    reveal_strlit("gists");
    reveal_strlit("notifications");
    reveal_strlit("emojis");
    reveal_strlit("events");
    reveal_strlit("feeds");
    reveal_strlit("meta");
    reveal_strlit("rate_limit");
    reveal_strlit("search");
    reveal_strlit("followers");
    reveal_strlit("following");
    reveal_strlit("starred");
    reveal_strlit("emails");
    reveal_strlit("keys");
    reveal_strlit("issues");
    reveal_strlit("subscriptions");
    reveal_strlit("blocks");
    reveal_strlit("gpg_keys");
    reveal_strlit("memberships");
    reveal_strlit("received_events");
    reveal_strlit("received_events_public");
    reveal_strlit("commits");
    reveal_strlit("branches");
    reveal_strlit("statuses");
    reveal_strlit("members");
    reveal_strlit("invitations");
    reveal_strlit("star");
    reveal_strlit("forks");
    reveal_strlit("comments");
    reveal_strlit("threads");
    reveal_strlit("subscription");
    reveal_strlit("code");
    reveal_strlit("repositories");
}

proof fn lemma_escaped_nonempty(b: Seq<u8>)
    requires
        b.len() > 0,
    ensures
        escaped(b).len() > 0,
{
    assert(escape_byte(b.last()).len() > 0);
}

proof fn lemma_encode_nonempty(p: Seq<char>)
    requires
        p.len() > 0,
    ensures
        encode_utf8(p).len() > 0,
{
    let c = p[0] as u32;
    assert(vstd::utf8::encode_scalar(c).len() > 0);
}

proof fn lemma_piece_plain(s: (Edge, Option<Seq<char>>))
    requires
        is_path_step(s),
    ensures
        piece(s).len() > 0,
        forall|i: int| 0 <= i < piece(s).len() ==> piece(s)[i] != '/',
{
    if fragment_of(s.0) == Fragment::Segment {
        lemma_edge_text_plain(s.0);
    } else {
        let b = encode_utf8(s.1->Some_0);
        lemma_encode_nonempty(s.1->Some_0);
        lemma_escaped_nonempty(b);
        lemma_escaped_chars(b);
        assert forall|i: int| 0 <= i < piece(s).len() implies piece(s)[i] != '/' by {
            assert(is_escape_char(escaped(b)[i]));
        }
    }
}

/// Path transitions lay their segments out in the order they were taken,
/// with exactly one `/` before each and none doubled.
pub proof fn lemma_path_segments_in_order(b: BuilderView, steps: Seq<(Edge, Option<Seq<char>>)>)
    requires
        b.request is Ok,
        b.request->Ok_0.url.len() == 0 || b.request->Ok_0.url.last() != '/',
        forall|i: int| 0 <= i < steps.len() ==> is_path_step(#[trigger] steps[i]),
        run_steps(b, steps).request is Ok,
    ensures
        run_steps(b, steps).request->Ok_0.url == b.request->Ok_0.url + slash_path(steps),
    decreases steps.len(),
{
    let base = b.request->Ok_0.url;
    if steps.len() == 0 {
        assert(base + slash_path(steps) =~= base);
    } else {
        let prefix = steps.drop_last();
        let s = steps.last();
        let before = run_steps(b, prefix);
        if before.request is Err {
            assert(run_steps(b, steps) == before);
        }
        assert forall|i: int| 0 <= i < prefix.len() implies is_path_step(#[trigger] prefix[i]) by {
            assert(prefix[i] == steps[i]);
        }
        lemma_path_segments_in_order(b, prefix);
        let u = before.request->Ok_0.url;
        assert(is_path_step(steps[steps.len() - 1]));
        lemma_piece_plain(s);
        if prefix.len() > 0 {
            lemma_piece_plain(prefix.last());
            assert(is_path_step(steps[steps.len() - 2]));
            assert(u.last() == piece(prefix.last()).last());
        } else {
            assert(u =~= base);
        }
        assert(trim_end_slashes(u) == u);
        assert(trim_start_slashes(piece(s)) == piece(s));
        if fragment_of(s.0) == Fragment::Segment {
            assert(fragment_url(u, s.0, s.1) == Ok::<Seq<char>, BuildError>(join_segment(u, piece(s))));
        } else {
            assert(fragment_url(u, s.0, s.1) == Ok::<Seq<char>, BuildError>(join_segment(u, piece(s))));
        }
        assert(run_steps(b, steps).request->Ok_0.url =~= base + slash_path(steps));
    }
}

/// A parameter lands in the URL exactly as its escaped form, at the end,
/// made only of unreserved characters and `%`; an empty parameter leaves a
/// well-formed ending (`.../` or `...?key=`) and no error of its own.
pub proof fn lemma_parameter_in_url(b: BuilderView, e: Edge, p: Seq<char>)
    requires
        b.request is Ok,
        fragment_of(e) != Fragment::Segment,
    ensures
        ({
            let url = b.request->Ok_0.url;
            let esc = escaped(encode_utf8(p));
            &&& fragment_of(e) == Fragment::PathParam ==> fragment_url(url, e, Some(p)) == Ok::<
                Seq<char>,
                BuildError,
            >(trim_end_slashes(url) + seq!['/'] + esc)
            &&& fragment_of(e) == Fragment::QueryParam ==> fragment_url(url, e, Some(p)) == Ok::<
                Seq<char>,
                BuildError,
            >(with_query(url, edge_text(e), esc))
            &&& forall|i: int| 0 <= i < esc.len() ==> is_escape_char(#[trigger] esc[i])
            &&& unescaped(esc) == encode_utf8(p)
            &&& (forall|i: int| 0 <= i < p.len() ==> is_unreserved_char(#[trigger] p[i])) ==> esc
                == p
            &&& p.len() == 0 ==> esc.len() == 0
            &&& step_spec(b, e, Some(p)).request is Ok ==> ({
                let v = fragment_url(url, e, Some(p))->Ok_0;
                &&& step_spec(b, e, Some(p)).request->Ok_0.url == v
                &&& v.subrange(v.len() - esc.len(), v.len() as int) == esc
            })
        }),
{
    let url = b.request->Ok_0.url;
    let esc = escaped(encode_utf8(p));
    lemma_escaped_chars(encode_utf8(p));
    lemma_unescape_escaped(encode_utf8(p));
    if forall|i: int| 0 <= i < p.len() ==> is_unreserved_char(#[trigger] p[i]) {
        lemma_unreserved_unchanged(p);
    }
    if p.len() == 0 {
        assert(encode_utf8(p) =~= Seq::<u8>::empty());
    }
    if fragment_of(e) == Fragment::PathParam {
        assert(trim_start_slashes(esc) == esc) by {
            if esc.len() > 0 {
                assert(is_escape_char(esc[0]));
            }
        }
        let v = trim_end_slashes(url) + seq!['/'] + esc;
        assert(v.subrange(v.len() - esc.len(), v.len() as int) =~= esc);
    } else {
        let v = with_query(url, edge_text(e), esc);
        assert(v.subrange(v.len() - esc.len(), v.len() as int) =~= esc);
    }
}


/// A conditional request carries the given tag as its `If-None-Match`
/// header.
pub proof fn lemma_etag_sent(b: BuilderView, tag: Seq<char>)
    requires
        b.request is Ok,
        builder_wf(b),
        valid_value(tag),
    ensures
        set_etag_spec(b, tag).request is Ok,
        header_value(set_etag_spec(b, tag).request->Ok_0.headers, if_none_match()) == Some(tag),
        builder_wf(set_etag_spec(b, tag)),
{
    lemma_with_header(b.request->Ok_0.headers, if_none_match(), tag);
}


/// The segment a path transition appends, before escaping.
pub open spec fn plain_piece(s: (Edge, Option<Seq<char>>)) -> Seq<char> {
    if fragment_of(s.0) == Fragment::Segment {
        edge_text(s.0)
    } else {
        s.1->Some_0
    }
}

/// The segments of a chain of path transitions as given, each preceded by
/// one `/`.
pub open spec fn plain_path(steps: Seq<(Edge, Option<Seq<char>>)>) -> Seq<char>
    decreases steps.len(),
{
    if steps.len() == 0 {
        Seq::empty()
    } else {
        plain_path(steps.drop_last()) + seq!['/'] + plain_piece(steps.last())
    }
}

/// Where every parameter is made of unreserved characters, the path is the
/// segments exactly as given, in order, one `/` before each.
pub proof fn lemma_plain_parameters_verbatim(steps: Seq<(Edge, Option<Seq<char>>)>)
    requires
        forall|i: int|
            0 <= i < steps.len() ==> fragment_of(#[trigger] steps[i].0) == Fragment::Segment
                || (steps[i].1 is Some && forall|j: int|
                0 <= j < steps[i].1->Some_0.len() ==> is_unreserved_char(
                    #[trigger] steps[i].1->Some_0[j],
                )),
    ensures
        slash_path(steps) == plain_path(steps),
    decreases steps.len(),
{
    if steps.len() > 0 {
        let prefix = steps.drop_last();
        assert forall|i: int| 0 <= i < prefix.len() implies fragment_of(#[trigger] prefix[i].0)
            == Fragment::Segment || (prefix[i].1 is Some && forall|j: int|
            0 <= j < prefix[i].1->Some_0.len() ==> is_unreserved_char(
                #[trigger] prefix[i].1->Some_0[j],
            )) by {
            assert(prefix[i] == steps[i]);
        }
        lemma_plain_parameters_verbatim(prefix);
        let s = steps.last();
        assert(fragment_of(steps[steps.len() - 1].0) == Fragment::Segment || steps[steps.len()
            - 1].1 is Some);
        if fragment_of(s.0) != Fragment::Segment {
            lemma_unreserved_unchanged(s.1->Some_0);
        }
    }
}

} // verus!
