//! GraphQL requests: a query or mutation text wrapped in a JSON body and
//! posted to the GraphQL endpoint.
use vstd::prelude::*;
use vstd::string::*;
use vstd::utf8::encode_utf8;
use crate::client::{
    authorization, standard_header_list, standard_headers, uri_accepts, uri_accepted, BuildError,
    PendingRequest, RequestView,
};
use crate::graph::Method;
use crate::headers::{header_value_accepted, names_unique, valid_value};
use crate::text::{hex_char, hex_digit, push_char};

verus! {

/// The public GraphQL endpoint.
pub open spec fn graphql_url() -> Seq<char> {
    "https://api.github.com/graphql"@
}

/// How one character of a query is written inside a JSON string:
/// backslash, double quote and control characters are escaped.
pub open spec fn quote_char(c: char) -> Seq<char> {
    if c == '\\' {
        seq!['\\', '\\']
    } else if c == '"' {
        seq!['\\', '"']
    } else if c == '\n' {
        seq!['\\', 'n']
    } else if c == '\r' {
        seq!['\\', 'r']
    } else if c == '\t' {
        seq!['\\', 't']
    } else if (c as u32) < 32 {
        seq![
            '\\',
            'u',
            '0',
            '0',
            hex_digit(((c as u32) / 16) as u8),
            hex_digit(((c as u32) % 16) as u8),
        ]
    } else {
        seq![c]
    }
}

/// A text escaped for use inside a JSON string.
pub open spec fn quoted(s: Seq<char>) -> Seq<char>
    decreases s.len(),
{
    if s.len() == 0 {
        Seq::empty()
    } else {
        quoted(s.drop_last()) + quote_char(s.last())
    }
}

/// The JSON body that carries a query text.
pub open spec fn query_body(text: Seq<char>) -> Seq<char> {
    "{ \"query\": \""@ + text + "\" }"@
}

/// The headers of a GraphQL request.
pub open spec fn graphql_headers(token: Seq<char>) -> Seq<(Seq<char>, Seq<char>)> {
    standard_headers(authorization(token), false)
}

/// The request that posts `text` to `url`: the URL must parse and the
/// credential must be allowed in a header.
pub open spec fn graphql_request(url: Seq<char>, token: Seq<char>, text: Seq<char>) -> Result<
    RequestView,
    BuildError,
> {
    if !uri_accepts(url) {
        Err(BuildError::BaseUrl)
    } else if !valid_value(authorization(token)) {
        Err(BuildError::InvalidHeader)
    } else {
        Ok(
            RequestView {
                method: Method::Post,
                url,
                headers: graphql_headers(token),
                body: encode_utf8(query_body(text)),
            },
        )
    }
}

fn escape_json_text(s: &str) -> (r: String)
    ensures
        r@ == quoted(s@),
{
    let n = s.unicode_len();
    let mut out = String::new();
    let mut i: usize = 0;
    while i < n
        invariant
            n == s@.len(),
            i <= n,
            out@ == quoted(s@.subrange(0, i as int)),
        decreases n - i,
    {
        let c = s.get_char(i);
        assert(s@.subrange(0, i + 1).drop_last() == s@.subrange(0, i as int));
        if c == '\\' {
            push_char(&mut out, '\\');
            push_char(&mut out, '\\');
        } else if c == '"' {
            push_char(&mut out, '\\');
            push_char(&mut out, '"');
        } else if c == '\n' {
            push_char(&mut out, '\\');
            push_char(&mut out, 'n');
        } else if c == '\r' {
            push_char(&mut out, '\\');
            push_char(&mut out, 'r');
        } else if c == '\t' {
            push_char(&mut out, '\\');
            push_char(&mut out, 't');
        } else if (c as u32) < 32 {
            push_char(&mut out, '\\');
            push_char(&mut out, 'u');
            push_char(&mut out, '0');
            push_char(&mut out, '0');
            push_char(&mut out, hex_char(((c as u32) / 16) as u8));
            push_char(&mut out, hex_char(((c as u32) % 16) as u8));
        } else {
            push_char(&mut out, c);
        }
        i = i + 1;
    }
    assert(s@.subrange(0, n as int) == s@);
    out
}

fn post_request(url: &str, token: &str, text: &str) -> (r: Result<PendingRequest, BuildError>)
    ensures
        match r {
            Ok(req) => graphql_request(url@, token@, text@) == Ok::<RequestView, BuildError>(req@),
            Err(e) => graphql_request(url@, token@, text@) == Err::<RequestView, BuildError>(e),
        },
        r is Ok ==> names_unique(r->Ok_0@.headers),
{
    if !uri_accepted(url) {
        return Err(BuildError::BaseUrl);
    }
    let mut auth = "token ".to_owned();
    auth.append(token);
    if !header_value_accepted(auth.as_str()) {
        return Err(BuildError::InvalidHeader);
    }
    let headers = standard_header_list(auth, false);
    let mut body = "{ \"query\": \"".to_owned();
    body.append(text);
    body.append("\" }");
    let bytes = body.as_str().as_bytes_vec();
    Ok(PendingRequest { method: Method::Post, url: url.to_owned(), headers, body: bytes })
}

/// A GraphQL query and the endpoint it is posted to.
pub struct Query {
    pub query: String,
    pub base_url: String,
}

impl Query {
    /// An empty query for the public endpoint.
    pub fn new() -> (r: Query)
        ensures
            r.query@.len() == 0,
            r.base_url@ == graphql_url(),
    {
        Query { query: String::new(), base_url: "https://api.github.com/graphql".to_owned() }
    }

    /// An empty query for another endpoint, such as an enterprise server's.
    pub fn with_base_url(base_url: &str) -> (r: Query)
        ensures
            r.query@.len() == 0,
            r.base_url@ == base_url@,
    {
        Query { query: String::new(), base_url: base_url.to_owned() }
    }

    /// A query for the public endpoint with the given text.
    pub fn new_raw(q: &str) -> (r: Query)
        ensures
            r.query@ == q@,
            r.base_url@ == graphql_url(),
    {
        Query { query: q.to_owned(), base_url: "https://api.github.com/graphql".to_owned() }
    }

    /// Replaces the query text.
    pub fn raw_query(&mut self, q: &str)
        ensures
            final(self).query@ == q@,
            final(self).base_url@ == old(self).base_url@,
    {
        self.query = q.to_owned();
    }

    /// The POST request that carries this query, its text escaped for the
    /// JSON string.
    pub fn into_github_req(&self, token: &str) -> (r: Result<PendingRequest, BuildError>)
        ensures
            match r {
                Ok(req) => graphql_request(self.base_url@, token@, quoted(self.query@)) == Ok::<
                    RequestView,
                    BuildError,
                >(req@),
                Err(e) => graphql_request(self.base_url@, token@, quoted(self.query@)) == Err::<
                    RequestView,
                    BuildError,
                >(e),
            },
    {
        let text = escape_json_text(self.query.as_str());
        post_request(self.base_url.as_str(), token, text.as_str())
    }
}

/// A GraphQL mutation for the public endpoint.
pub struct Mutation {
    pub mutation: String,
}

impl Mutation {
    /// An empty mutation.
    pub fn new() -> (r: Mutation)
        ensures
            r.mutation@.len() == 0,
    {
        Mutation { mutation: String::new() }
    }

    /// A mutation with the given text.
    pub fn new_raw(m: &str) -> (r: Mutation)
        ensures
            r.mutation@ == m@,
    {
        Mutation { mutation: m.to_owned() }
    }

    /// Replaces the mutation text.
    pub fn raw_mutation(&mut self, m: &str)
        ensures
            final(self).mutation@ == m@,
    {
        self.mutation = m.to_owned();
    }

    /// The POST request that carries this mutation, its text escaped for the
    /// JSON string.
    pub fn into_github_req(&self, token: &str) -> (r: Result<PendingRequest, BuildError>)
        ensures
            match r {
                Ok(req) => graphql_request(graphql_url(), token@, quoted(self.mutation@)) == Ok::<
                    RequestView,
                    BuildError,
                >(req@),
                Err(e) => graphql_request(graphql_url(), token@, quoted(self.mutation@)) == Err::<
                    RequestView,
                    BuildError,
                >(e),
            },
    {
        let text = escape_json_text(self.mutation.as_str());
        post_request("https://api.github.com/graphql", token, text.as_str())
    }
}

} // verus!
