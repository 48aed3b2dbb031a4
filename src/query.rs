use vstd::prelude::*;

use crate::error::ReadError;
use crate::viewer::{
    person_of, resolve_visibility, viewer_person_id, visibility_of, ReadConfig, ViewerContext,
};
use crate::vocab::{ListingType, SortType};

verus! {

/// A request for one page of a post feed, as a client sends it.
#[derive(Clone, Debug)]
pub struct GetPosts {
    /// Name of a `ListingType`.
    pub type_: String,
    /// Name of a `SortType`.
    pub sort: String,
    /// 1-based page number; the first page when absent.
    pub page: Option<i64>,
    /// Page size; the configured default when absent.
    pub limit: Option<i64>,
    pub community_id: Option<i32>,
    pub community_name: Option<String>,
    pub saved_only: bool,
}

/// The page that a requested page number selects: non-positive numbers and an
/// absent number select the first page.
pub open spec fn page_of(page: Option<i64>) -> int {
    match page {
        Some(p) => if p < 1 { 1 } else { p as int },
        None => 1,
    }
}

/// The page size that a requested size obtains: the configured default when
/// absent, raised to 1 and lowered to the configured maximum otherwise.
pub open spec fn limit_of(limit: Option<i64>, config: ReadConfig) -> int {
    match limit {
        Some(l) => if l < 1 {
            1
        } else if l > config.max_page_size {
            config.max_page_size as int
        } else {
            l as int
        },
        None => config.default_page_size as int,
    }
}

/// Clamps a requested page number to a valid one.
pub fn clamp_page(page: Option<i64>) -> (r: u64)
    ensures
        r == page_of(page),
        r >= 1,
{
    match page {
        Some(p) => if p < 1 { 1 } else { p as u64 },
        None => 1,
    }
}

/// Clamps a requested page size to a valid one.
pub fn clamp_limit(limit: Option<i64>, config: &ReadConfig) -> (r: u64)
    requires
        config.wf(),
    ensures
        r == limit_of(limit, *config),
        1 <= r <= config.max_page_size,
{
    match limit {
        Some(l) => if l < 1 {
            1
        } else if l as u64 > config.max_page_size {
            config.max_page_size
        } else {
            l as u64
        },
        None => config.default_page_size,
    }
}

/// Everything the storage engine needs to list one page of a feed.
#[derive(Clone, Debug)]
pub struct PostQuerySpec {
    pub listing_type: ListingType,
    pub sort: SortType,
    pub show_nsfw: bool,
    pub show_bot_accounts: bool,
    pub community_id: Option<i32>,
    pub community_name: Option<String>,
    pub saved_only: bool,
    pub viewer_person_id: Option<i32>,
    /// 1-based page number.
    pub page: u64,
    pub limit: u64,
}

impl PostQuerySpec {
    /// Page and page size are positive and the page size is within `max`.
    pub open spec fn wf(self, max_page_size: u64) -> bool {
        &&& self.page >= 1
        &&& 1 <= self.limit <= max_page_size
    }

    /// This is the query that `req` asks for from `viewer`, once its listing
    /// type and sort have been read as `listing_type` and `sort`.
    pub open spec fn describes(
        self,
        req: GetPosts,
        viewer: Option<ViewerContext>,
        config: ReadConfig,
        listing_type: ListingType,
        sort: SortType,
    ) -> bool {
        &&& self.listing_type == listing_type
        &&& self.sort == sort
        &&& self.show_nsfw == visibility_of(viewer, config).show_nsfw
        &&& self.show_bot_accounts == visibility_of(viewer, config).show_bot_accounts
        &&& self.community_id == req.community_id
        &&& self.community_name == req.community_name
        &&& self.saved_only == req.saved_only
        &&& self.viewer_person_id == person_of(viewer)
        &&& self.page == page_of(req.page)
        &&& self.limit == limit_of(req.limit, config)
    }

    /// Builds the feed query of `req` for `viewer`. Fails, before anything is
    /// read, when the listing type or (the listing type being valid) the sort
    /// is not a known name.
    pub fn for_feed(req: &GetPosts, viewer: &Option<ViewerContext>, config: &ReadConfig) -> (r:
        Result<PostQuerySpec, ReadError>)
        requires
            config.wf(),
        ensures
            forall|t: ListingType, s: SortType|
                t.spec_name() == req.type_@ && s.spec_name() == req.sort@ ==> r is Ok
                    && r->Ok_0.describes(*req, *viewer, *config, t, s) && r->Ok_0.wf(
                    config.max_page_size,
                ),
            (forall|t: ListingType| t.spec_name() != req.type_@) ==> r is Err
                && r->Err_0.is_invalid_enum(crate::error::EnumKind::ListingType, req.type_@),
            (exists|t: ListingType| t.spec_name() == req.type_@) && (forall|s: SortType|
                s.spec_name() != req.sort@) ==> r is Err && r->Err_0.is_invalid_enum(
                crate::error::EnumKind::SortType,
                req.sort@,
            ),
    {
        let visibility = resolve_visibility(viewer, config);
        let listing_type = match ListingType::parse(req.type_.as_str()) {
            Ok(t) => t,
            Err(e) => {
                return Err(e);
            },
        };
        let sort = match SortType::parse(req.sort.as_str()) {
            Ok(s) => s,
            Err(e) => {
                return Err(e);
            },
        };
        let community_name = match &req.community_name {
            Some(n) => Some(n.clone()),
            None => None,
        };
        Ok(PostQuerySpec {
            listing_type,
            sort,
            show_nsfw: visibility.show_nsfw,
            show_bot_accounts: visibility.show_bot_accounts,
            community_id: req.community_id,
            community_name,
            saved_only: req.saved_only,
            viewer_person_id: viewer_person_id(viewer),
            page: clamp_page(req.page),
            limit: clamp_limit(req.limit, config),
        })
    }
}

/// Everything the storage engine needs to list the comments of one post.
#[derive(Clone, Copy, Debug, PartialEq, Eq, Structural)]
pub struct CommentQuerySpec {
    pub post_id: i32,
    pub viewer_person_id: Option<i32>,
    pub show_bot_accounts: bool,
    /// Ceiling on the number of comments returned.
    pub limit: u64,
}

impl CommentQuerySpec {
    /// The comment listing of post `post_id` as `viewer` sees it, capped at
    /// the configured ceiling.
    pub open spec fn spec_for_post(post_id: i32, viewer: Option<ViewerContext>, config: ReadConfig) -> CommentQuerySpec {
        CommentQuerySpec {
            post_id,
            viewer_person_id: person_of(viewer),
            show_bot_accounts: visibility_of(viewer, config).show_bot_accounts,
            limit: config.comment_limit,
        }
    }

    /// Builds the comment listing of post `post_id` for `viewer`.
    pub fn for_post(post_id: i32, viewer: &Option<ViewerContext>, config: &ReadConfig) -> (r: CommentQuerySpec)
        ensures
            r == Self::spec_for_post(post_id, *viewer, *config),
    {
        let visibility = resolve_visibility(viewer, config);
        CommentQuerySpec {
            post_id,
            viewer_person_id: viewer_person_id(viewer),
            show_bot_accounts: visibility.show_bot_accounts,
            limit: config.comment_limit,
        }
    }
}

} // verus!
