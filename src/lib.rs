//! A typed request builder and paginated executor for the GitHub REST API.
//!
//! Requests are assembled by walking a fixed graph of endpoint states; each
//! step appends a path segment or a query parameter to the URL. Once built,
//! a request is handed to a transport, and the response is turned into a
//! result by the functions of `exec`.
pub mod client;
pub mod exec;
pub mod graph;
pub mod graphql;
pub mod headers;
pub mod links;
pub mod search;
pub mod text;
