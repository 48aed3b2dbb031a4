use vstd::prelude::*;

verus! {

/// Comments fetched for a post's detail page are capped at this count: a fixed
/// ceiling that stands in for "all of them".
pub const COMMENT_LIMIT_CEILING: u64 = 9999;

/// Page size used when a feed request names none.
pub const DEFAULT_PAGE_SIZE: u64 = 10;

/// Largest page size a feed request may obtain.
pub const MAX_PAGE_SIZE: u64 = 50;

/// An authenticated viewer and the preferences stored for them.
#[derive(Clone, Copy, Debug, PartialEq, Eq, Structural)]
pub struct ViewerContext {
    pub person_id: i32,
    pub show_nsfw: bool,
    pub show_bot_accounts: bool,
}

/// Deployment settings of the read paths.
#[derive(Clone, Copy, Debug, PartialEq, Eq, Structural)]
pub struct ReadConfig {
    /// Whether an anonymous viewer sees NSFW posts.
    pub anonymous_show_nsfw: bool,
    /// Whether an anonymous viewer sees content of bot accounts.
    pub anonymous_show_bot_accounts: bool,
    /// Ceiling on the comments fetched for a post's detail page.
    pub comment_limit: u64,
    /// Page size used when a feed request names none.
    pub default_page_size: u64,
    /// Largest page size a feed request may obtain.
    pub max_page_size: u64,
}

impl ReadConfig {
    /// Page sizes and the comment ceiling are positive, and the default page
    /// size is within the maximum.
    pub open spec fn wf(self) -> bool {
        &&& 1 <= self.comment_limit
        &&& 1 <= self.default_page_size <= self.max_page_size
    }

    /// The conservative settings: anonymous viewers see neither NSFW posts nor
    /// bot accounts.
    pub fn standard() -> (r: ReadConfig)
        ensures
            r.wf(),
            !r.anonymous_show_nsfw,
            !r.anonymous_show_bot_accounts,
            r.comment_limit == COMMENT_LIMIT_CEILING,
            r.default_page_size == DEFAULT_PAGE_SIZE,
            r.max_page_size == MAX_PAGE_SIZE,
    {
        ReadConfig {
            anonymous_show_nsfw: false,
            anonymous_show_bot_accounts: false,
            comment_limit: COMMENT_LIMIT_CEILING,
            default_page_size: DEFAULT_PAGE_SIZE,
            max_page_size: MAX_PAGE_SIZE,
        }
    }
}

/// Content filters that follow from who is reading.
#[derive(Clone, Copy, Debug, PartialEq, Eq, Structural)]
pub struct Visibility {
    pub show_nsfw: bool,
    pub show_bot_accounts: bool,
}

/// The filters of a viewer: their own preferences, or the deployment's
/// anonymous defaults when there is no viewer.
pub open spec fn visibility_of(viewer: Option<ViewerContext>, config: ReadConfig) -> Visibility {
    match viewer {
        Some(v) => Visibility { show_nsfw: v.show_nsfw, show_bot_accounts: v.show_bot_accounts },
        None => Visibility {
            show_nsfw: config.anonymous_show_nsfw,
            show_bot_accounts: config.anonymous_show_bot_accounts,
        },
    }
}

/// The person id of a viewer, if there is one.
pub open spec fn person_of(viewer: Option<ViewerContext>) -> Option<i32> {
    match viewer {
        Some(v) => Some(v.person_id),
        None => None,
    }
}

/// Derives the content filters of a request from its viewer.
pub fn resolve_visibility(viewer: &Option<ViewerContext>, config: &ReadConfig) -> (r: Visibility)
    ensures
        r == visibility_of(*viewer, *config),
{
    match viewer {
        Some(v) => Visibility { show_nsfw: v.show_nsfw, show_bot_accounts: v.show_bot_accounts },
        None => Visibility {
            show_nsfw: config.anonymous_show_nsfw,
            show_bot_accounts: config.anonymous_show_bot_accounts,
        },
    }
}

/// The person id of the viewer, if there is one.
pub fn viewer_person_id(viewer: &Option<ViewerContext>) -> (r: Option<i32>)
    ensures
        r == person_of(*viewer),
{
    match viewer {
        Some(v) => Some(v.person_id),
        None => None,
    }
}

/// Under the standard settings an anonymous viewer sees neither NSFW posts nor
/// bot accounts; under any settings an anonymous viewer gets exactly the
/// configured defaults.
pub proof fn anonymous_visibility_is_the_configured_default(config: ReadConfig)
    ensures
        visibility_of(None, config).show_nsfw == config.anonymous_show_nsfw,
        visibility_of(None, config).show_bot_accounts == config.anonymous_show_bot_accounts,
        !config.anonymous_show_nsfw && !config.anonymous_show_bot_accounts ==> visibility_of(None, config)
            == (Visibility { show_nsfw: false, show_bot_accounts: false }),
{
}

} // verus!
