use vstd::prelude::*;

use crate::error::{Entity, FetchError, ReadError};
use crate::query::CommentQuerySpec;
use crate::viewer::{person_of, viewer_person_id, ReadConfig, ViewerContext};

verus! {

/// Viewer count reported when the presence tracker does not answer.
pub const DEFAULT_ONLINE: usize = 1;

/// A request for one post with its full context.
#[derive(Clone, Copy, Debug, PartialEq, Eq, Structural)]
pub struct GetPost {
    pub id: i32,
}

/// A post with its community, comments, moderators and live viewer count.
/// The view types are whatever the storage engine produces.
#[derive(Clone, Debug)]
pub struct GetPostResponse<P, K, C, M> {
    pub post_view: P,
    pub community_view: K,
    pub comments: Vec<C>,
    pub moderators: Vec<M>,
    pub online: usize,
}

/// The next thing the caller must do for a post detail read.
#[derive(Clone, Copy, Debug, PartialEq, Eq, Structural)]
pub enum DetailAction {
    /// Read the post, as seen by the viewer.
    ReadPost { post_id: i32, viewer_person_id: Option<i32> },
    /// List the post's comments.
    ListComments(CommentQuerySpec),
    /// List the moderators of the post's community.
    ListModerators { community_id: i32 },
    /// Read the post's community, as seen by the viewer.
    ReadCommunity { community_id: i32, viewer_person_id: Option<i32> },
    /// Ask the presence tracker how many viewers are on the post.
    CountOnline { post_id: i32 },
    /// The outcome is settled: hand it to the client.
    Respond,
}

/// What the caller reports back after performing a `DetailAction`.
pub enum DetailEvent<P, K, C, M> {
    /// The post view with the id of its community, or why there is none.
    PostRead(Result<(P, i32), FetchError>),
    CommentsListed(Result<Vec<C>, FetchError>),
    ModeratorsListed(Result<Vec<M>, FetchError>),
    CommunityRead(Result<K, FetchError>),
    /// The presence tracker's count; `None` when it failed or timed out.
    OnlineCounted(Option<usize>),
}

/// How far a post detail read has come, with what it has gathered so far.
pub enum DetailStage<P, K, C, M> {
    AwaitPost,
    AwaitComments { post_view: P, community_id: i32 },
    AwaitModerators { post_view: P, community_id: i32, comments: Vec<C> },
    AwaitCommunity { post_view: P, community_id: i32, comments: Vec<C>, moderators: Vec<M> },
    AwaitOnline { post_view: P, community_view: K, comments: Vec<C>, moderators: Vec<M> },
    Done(Result<GetPostResponse<P, K, C, M>, ReadError>),
}

/// One post detail read in progress. The post read gates every other read;
/// a missing post or a missing community ends the read with `NotFound`; a
/// failed comment or moderator listing ends it with `QueryFailed`; a failed
/// presence query yields `DEFAULT_ONLINE` viewers and never fails the read.
pub struct PostDetailRead<P, K, C, M> {
    pub post_id: i32,
    pub viewer_person_id: Option<i32>,
    pub comment_query: CommentQuerySpec,
    pub stage: DetailStage<P, K, C, M>,
}

impl<P, K, C, M> PostDetailRead<P, K, C, M> {
    /// The action that the current stage waits on.
    pub open spec fn pending(self) -> DetailAction {
        match self.stage {
            DetailStage::AwaitPost => DetailAction::ReadPost {
                post_id: self.post_id,
                viewer_person_id: self.viewer_person_id,
            },
            DetailStage::AwaitComments { .. } => DetailAction::ListComments(self.comment_query),
            DetailStage::AwaitModerators { community_id, .. } => DetailAction::ListModerators {
                community_id,
            },
            DetailStage::AwaitCommunity { community_id, .. } => DetailAction::ReadCommunity {
                community_id,
                viewer_person_id: self.viewer_person_id,
            },
            DetailStage::AwaitOnline { .. } => DetailAction::CountOnline { post_id: self.post_id },
            DetailStage::Done(_) => DetailAction::Respond,
        }
    }

    /// The same read, moved on to `stage`.
    pub open spec fn with_stage(self, stage: DetailStage<P, K, C, M>) -> Self {
        PostDetailRead { stage, ..self }
    }

    /// The read after `event`. An event that the stage does not wait on
    /// changes nothing.
    pub open spec fn next(self, event: DetailEvent<P, K, C, M>) -> Self {
        match (self.stage, event) {
            (DetailStage::AwaitPost, DetailEvent::PostRead(res)) => self.with_stage(
                match res {
                    Ok((post_view, community_id)) => DetailStage::AwaitComments { post_view, community_id },
                    Err(FetchError::Missing) => DetailStage::Done(Err(ReadError::NotFound(Entity::Post))),
                    Err(FetchError::Failed) => DetailStage::Done(Err(ReadError::QueryFailed)),
                },
            ),
            (
                DetailStage::AwaitComments { post_view, community_id },
                DetailEvent::CommentsListed(res),
            ) => self.with_stage(
                match res {
                    Ok(comments) => DetailStage::AwaitModerators { post_view, community_id, comments },
                    Err(_) => DetailStage::Done(Err(ReadError::QueryFailed)),
                },
            ),
            (
                DetailStage::AwaitModerators { post_view, community_id, comments },
                DetailEvent::ModeratorsListed(res),
            ) => self.with_stage(
                match res {
                    Ok(moderators) => DetailStage::AwaitCommunity {
                        post_view,
                        community_id,
                        comments,
                        moderators,
                    },
                    Err(_) => DetailStage::Done(Err(ReadError::QueryFailed)),
                },
            ),
            (
                DetailStage::AwaitCommunity { post_view, community_id, comments, moderators },
                DetailEvent::CommunityRead(res),
            ) => self.with_stage(
                match res {
                    Ok(community_view) => DetailStage::AwaitOnline {
                        post_view,
                        community_view,
                        comments,
                        moderators,
                    },
                    Err(FetchError::Missing) => DetailStage::Done(
                        Err(ReadError::NotFound(Entity::Community)),
                    ),
                    Err(FetchError::Failed) => DetailStage::Done(Err(ReadError::QueryFailed)),
                },
            ),
            (
                DetailStage::AwaitOnline { post_view, community_view, comments, moderators },
                DetailEvent::OnlineCounted(count),
            ) => self.with_stage(
                DetailStage::Done(
                    Ok(
                        GetPostResponse {
                            post_view,
                            community_view,
                            comments,
                            moderators,
                            online: match count {
                                Some(n) => n,
                                None => DEFAULT_ONLINE,
                            },
                        },
                    ),
                ),
            ),
            _ => self,
        }
    }

    /// The read after each of `events` in turn.
    pub open spec fn run(self, events: Seq<DetailEvent<P, K, C, M>>) -> Self
        decreases events.len(),
    {
        if events.len() == 0 {
            self
        } else {
            self.next(events[0]).run(events.drop_first())
        }
    }
}

impl GetPost {
    /// Starts the read of this post for `viewer`; its first action reads the
    /// post.
    pub fn begin<P, K, C, M>(&self, viewer: &Option<ViewerContext>, config: &ReadConfig) -> (r:
        PostDetailRead<P, K, C, M>)
        ensures
            r.stage is AwaitPost,
            r.post_id == self.id,
            r.viewer_person_id == person_of(*viewer),
            r.comment_query == CommentQuerySpec::spec_for_post(self.id, *viewer, *config),
            r.pending() == (DetailAction::ReadPost {
                post_id: self.id,
                viewer_person_id: person_of(*viewer),
            }),
    {
        PostDetailRead {
            post_id: self.id,
            viewer_person_id: viewer_person_id(viewer),
            comment_query: CommentQuerySpec::for_post(self.id, viewer, config),
            stage: DetailStage::AwaitPost,
        }
    }
}

impl<P, K, C, M> PostDetailRead<P, K, C, M> {
    /// The action that the read waits on.
    pub fn action(&self) -> (r: DetailAction)
        ensures
            r == self.pending(),
    {
        match &self.stage {
            DetailStage::AwaitPost => DetailAction::ReadPost {
                post_id: self.post_id,
                viewer_person_id: self.viewer_person_id,
            },
            DetailStage::AwaitComments { .. } => DetailAction::ListComments(self.comment_query),
            DetailStage::AwaitModerators { community_id, .. } => DetailAction::ListModerators {
                community_id: *community_id,
            },
            DetailStage::AwaitCommunity { community_id, .. } => DetailAction::ReadCommunity {
                community_id: *community_id,
                viewer_person_id: self.viewer_person_id,
            },
            DetailStage::AwaitOnline { .. } => DetailAction::CountOnline { post_id: self.post_id },
            DetailStage::Done(_) => DetailAction::Respond,
        }
    }

    /// Whether the outcome is settled.
    pub fn is_done(&self) -> (r: bool)
        ensures
            r == self.stage is Done,
    {
        match &self.stage {
            DetailStage::Done(_) => true,
            _ => false,
        }
    }

    /// Takes in the result of the pending action; returns the read moved on
    /// and the action it now waits on.
    pub fn step(self, event: DetailEvent<P, K, C, M>) -> (r: (Self, DetailAction))
        ensures
            r.0 == self.next(event),
            r.1 == r.0.pending(),
    {
        let PostDetailRead { post_id, viewer_person_id, comment_query, stage } = self;
        let stage = match stage {
            DetailStage::AwaitPost => match event {
                DetailEvent::PostRead(Ok((post_view, community_id))) => DetailStage::AwaitComments {
                    post_view,
                    community_id,
                },
                DetailEvent::PostRead(Err(FetchError::Missing)) => DetailStage::Done(
                    Err(ReadError::NotFound(Entity::Post)),
                ),
                DetailEvent::PostRead(Err(FetchError::Failed)) => DetailStage::Done(
                    Err(ReadError::QueryFailed),
                ),
                _ => DetailStage::AwaitPost,
            },
            DetailStage::AwaitComments { post_view, community_id } => match event {
                DetailEvent::CommentsListed(Ok(comments)) => DetailStage::AwaitModerators {
                    post_view,
                    community_id,
                    comments,
                },
                DetailEvent::CommentsListed(Err(_)) => DetailStage::Done(Err(ReadError::QueryFailed)),
                _ => DetailStage::AwaitComments { post_view, community_id },
            },
            DetailStage::AwaitModerators { post_view, community_id, comments } => match event {
                DetailEvent::ModeratorsListed(Ok(moderators)) => DetailStage::AwaitCommunity {
                    post_view,
                    community_id,
                    comments,
                    moderators,
                },
                DetailEvent::ModeratorsListed(Err(_)) => DetailStage::Done(
                    Err(ReadError::QueryFailed),
                ),
                _ => DetailStage::AwaitModerators { post_view, community_id, comments },
            },
            DetailStage::AwaitCommunity { post_view, community_id, comments, moderators } => match event {
                DetailEvent::CommunityRead(Ok(community_view)) => DetailStage::AwaitOnline {
                    post_view,
                    community_view,
                    comments,
                    moderators,
                },
                DetailEvent::CommunityRead(Err(FetchError::Missing)) => DetailStage::Done(
                    Err(ReadError::NotFound(Entity::Community)),
                ),
                DetailEvent::CommunityRead(Err(FetchError::Failed)) => DetailStage::Done(
                    Err(ReadError::QueryFailed),
                ),
                _ => DetailStage::AwaitCommunity { post_view, community_id, comments, moderators },
            },
            DetailStage::AwaitOnline { post_view, community_view, comments, moderators } => match event {
                DetailEvent::OnlineCounted(count) => {
                    let online = match count {
                        Some(n) => n,
                        None => DEFAULT_ONLINE,
                    };
                    DetailStage::Done(
                        Ok(GetPostResponse { post_view, community_view, comments, moderators, online }),
                    )
                },
                _ => DetailStage::AwaitOnline { post_view, community_view, comments, moderators },
            },
            DetailStage::Done(outcome) => DetailStage::Done(outcome),
        };
        let after = PostDetailRead { post_id, viewer_person_id, comment_query, stage };
        let action = after.action();
        (after, action)
    }

    /// The outcome of a settled read.
    pub fn into_outcome(self) -> (r: Result<GetPostResponse<P, K, C, M>, ReadError>)
        requires
            self.stage is Done,
        ensures
            r == self.stage->Done_0,
    {
        match self.stage {
            DetailStage::Done(outcome) => outcome,
            _ => Err(ReadError::QueryFailed),
        }
    }
}

/// Once a read is settled, no event changes it and it asks for nothing more.
pub proof fn settled_read_is_final<P, K, C, M>(
    m: PostDetailRead<P, K, C, M>,
    events: Seq<DetailEvent<P, K, C, M>>,
)
    requires
        m.stage is Done,
    ensures
        m.run(events) == m,
        m.run(events).pending() == DetailAction::Respond,
    decreases events.len(),
{
    if events.len() > 0 {
        settled_read_is_final(m.next(events[0]), events.drop_first());
    }
}

/// A read whose post is missing fails with `NotFound(Post)` at once, and
/// whatever is reported afterwards, it never asks for the comments, the
/// moderators, the community or the presence count.
pub proof fn missing_post_ends_the_read<P, K, C, M>(
    m: PostDetailRead<P, K, C, M>,
    events: Seq<DetailEvent<P, K, C, M>>,
)
    requires
        m.stage is AwaitPost,
    ensures
        ({
            let d = m.next(DetailEvent::PostRead(Err(FetchError::Missing)));
            &&& d.stage == DetailStage::<P, K, C, M>::Done(Err(ReadError::NotFound(Entity::Post)))
            &&& d.run(events) == d
            &&& d.run(events).pending() == DetailAction::Respond
        }),
{
    let d = m.next(DetailEvent::PostRead(Err(FetchError::Missing)));
    settled_read_is_final(d, events);
}

/// A read whose community is missing fails with `NotFound(Community)`, whatever
/// comments and moderators it has already gathered.
pub proof fn missing_community_ends_the_read<P, K, C, M>(m: PostDetailRead<P, K, C, M>)
    requires
        m.stage is AwaitCommunity,
    ensures
        m.next(DetailEvent::CommunityRead(Err(FetchError::Missing))).stage
            == DetailStage::<P, K, C, M>::Done(Err(ReadError::NotFound(Entity::Community))),
{
}

/// Whatever the presence tracker answers, failure included, the read succeeds;
/// without an answer the count is `DEFAULT_ONLINE`.
pub proof fn presence_failure_keeps_the_read<P, K, C, M>(
    m: PostDetailRead<P, K, C, M>,
    count: Option<usize>,
)
    requires
        m.stage is AwaitOnline,
    ensures
        ({
            let d = m.next(DetailEvent::OnlineCounted(count));
            &&& d.stage is Done
            &&& d.stage->Done_0 is Ok
            &&& d.stage->Done_0->Ok_0.online == match count {
                Some(n) => n,
                None => DEFAULT_ONLINE,
            }
            &&& d.pending() == DetailAction::Respond
        }),
{
}

/// A read whose lookups all succeed asks, in turn, for the post, its
/// comments, the moderators and the view of the community that the post
/// belongs to, then the presence count, and settles on a response that holds
/// exactly what was read.
pub proof fn complete_read_assembles_every_part<P, K, C, M>(
    m: PostDetailRead<P, K, C, M>,
    post_view: P,
    community_id: i32,
    comments: Vec<C>,
    moderators: Vec<M>,
    community_view: K,
    count: Option<usize>,
)
    requires
        m.stage is AwaitPost,
    ensures
        ({
            let m1 = m.next(DetailEvent::PostRead(Ok((post_view, community_id))));
            let m2 = m1.next(DetailEvent::CommentsListed(Ok(comments)));
            let m3 = m2.next(DetailEvent::ModeratorsListed(Ok(moderators)));
            let m4 = m3.next(DetailEvent::CommunityRead(Ok(community_view)));
            let m5 = m4.next(DetailEvent::OnlineCounted(count));
            &&& m.pending() == DetailAction::ReadPost {
                post_id: m.post_id,
                viewer_person_id: m.viewer_person_id,
            }
            &&& m1.pending() == DetailAction::ListComments(m.comment_query)
            &&& m2.pending() == DetailAction::ListModerators { community_id }
            &&& m3.pending() == DetailAction::ReadCommunity {
                community_id,
                viewer_person_id: m.viewer_person_id,
            }
            &&& m4.pending() == DetailAction::CountOnline { post_id: m.post_id }
            &&& m5.stage == DetailStage::Done(
                Ok(
                    GetPostResponse {
                        post_view,
                        community_view,
                        comments,
                        moderators,
                        online: match count {
                            Some(n) => n,
                            None => DEFAULT_ONLINE,
                        },
                    },
                ),
            )
        }),
{
}

} // verus!
