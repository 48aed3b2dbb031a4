use vstd::prelude::*;

use crate::error::{FetchError, ReadError};
use crate::query::PostQuerySpec;
use crate::vocab::ListingType;

verus! {

/// One page of a feed, in the order the storage engine ranked it.
#[derive(Clone, Debug)]
pub struct GetPostsResponse<P> {
    pub posts: Vec<P>,
}

impl<P> GetPostsResponse<P> {
    /// Turns the storage engine's answer to a feed query into the response:
    /// the listed posts as they are, or `QueryFailed` for any storage error.
    pub fn from_listing(listed: Result<Vec<P>, FetchError>) -> (r: Result<GetPostsResponse<P>, ReadError>)
        ensures
            listed is Ok ==> r is Ok && r->Ok_0.posts == listed->Ok_0,
            listed is Err ==> r is Err && r->Err_0 is QueryFailed,
    {
        match listed {
            Ok(posts) => Ok(GetPostsResponse { posts }),
            Err(_) => Err(ReadError::QueryFailed),
        }
    }
}

impl PostQuerySpec {
    /// The query's scope is the viewer's subscriptions and there is no
    /// viewer, so no post can match.
    pub open spec fn spec_selects_no_posts(self) -> bool {
        self.listing_type == ListingType::Subscribed && self.viewer_person_id is None
    }

    /// Whether the query's scope is the subscriptions of an anonymous viewer.
    pub fn selects_no_posts(&self) -> (r: bool)
        ensures
            r == self.spec_selects_no_posts(),
    {
        match self.listing_type {
            ListingType::Subscribed => self.viewer_person_id.is_none(),
            _ => false,
        }
    }
}

} // verus!
