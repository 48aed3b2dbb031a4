//! Read paths of a post service: request parsing, visibility policy, query
//! descriptors, and the decision logic that drives the dependent reads of a
//! post's detail page and of a post feed.
pub mod error;
pub mod vocab;
pub mod viewer;
pub mod query;
pub mod detail;
pub mod feed;
