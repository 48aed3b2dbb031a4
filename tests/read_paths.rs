use post_read::detail::{
    DetailAction, DetailEvent, DetailStage, GetPost, GetPostResponse, PostDetailRead,
    DEFAULT_ONLINE,
};
use post_read::error::{EnumKind, Entity, FetchError, ReadError};
use post_read::feed::GetPostsResponse;
use post_read::query::{clamp_limit, clamp_page, CommentQuerySpec, GetPosts, PostQuerySpec};
use post_read::viewer::{
    resolve_visibility, viewer_person_id, ReadConfig, ViewerContext, Visibility,
    COMMENT_LIMIT_CEILING,
};
use post_read::vocab::{text_equals, ListingType, SortType};

type Read = PostDetailRead<String, String, String, String>;
type Event = DetailEvent<String, String, String, String>;

fn anonymous_feed(type_: &str, sort: &str, page: Option<i64>, limit: Option<i64>) -> GetPosts {
    GetPosts {
        type_: type_.to_string(),
        sort: sort.to_string(),
        page,
        limit,
        community_id: None,
        community_name: None,
        saved_only: false,
    }
}

fn viewer() -> ViewerContext {
    ViewerContext { person_id: 3, show_nsfw: true, show_bot_accounts: true }
}

#[test]
fn listing_names_parse_to_their_variant() {
    let all = [ListingType::All, ListingType::Local, ListingType::Subscribed, ListingType::Community];
    for t in all {
        assert_eq!(ListingType::parse(t.name()), Ok(t));
    }
    assert_eq!(ListingType::parse("Subscribed"), Ok(ListingType::Subscribed));
}

#[test]
fn sort_names_parse_to_their_variant() {
    let all = [
        SortType::Active,
        SortType::Hot,
        SortType::New,
        SortType::TopDay,
        SortType::TopWeek,
        SortType::TopMonth,
        SortType::TopYear,
        SortType::TopAll,
        SortType::MostComments,
        SortType::NewComments,
    ];
    for s in all {
        assert_eq!(SortType::parse(s.name()), Ok(s));
    }
    assert_eq!(SortType::parse("TopAll"), Ok(SortType::TopAll));
    assert_eq!(SortType::name(&SortType::TopWeek), "TopWeek");
}

#[test]
fn parsing_is_case_sensitive_and_closed() {
    assert_eq!(
        ListingType::parse("all"),
        Err(ReadError::InvalidEnum(EnumKind::ListingType, "all".to_string()))
    );
    assert_eq!(
        ListingType::parse(""),
        Err(ReadError::InvalidEnum(EnumKind::ListingType, String::new()))
    );
    assert_eq!(
        SortType::parse("hot"),
        Err(ReadError::InvalidEnum(EnumKind::SortType, "hot".to_string()))
    );
    assert_eq!(
        SortType::parse("TopAll "),
        Err(ReadError::InvalidEnum(EnumKind::SortType, "TopAll ".to_string()))
    );
}

#[test]
fn text_equals_compares_every_character() {
    assert!(text_equals("Hot", "Hot"));
    assert!(!text_equals("Hot", "Hog"));
    assert!(!text_equals("Hot", "Ho"));
    assert!(text_equals("", ""));
}

#[test]
fn anonymous_viewer_gets_conservative_defaults() {
    let config = ReadConfig::standard();
    assert_eq!(
        resolve_visibility(&None, &config),
        Visibility { show_nsfw: false, show_bot_accounts: false }
    );
    assert_eq!(viewer_person_id(&None), None);
}

#[test]
fn deployment_can_override_anonymous_defaults() {
    let config = ReadConfig { anonymous_show_bot_accounts: true, ..ReadConfig::standard() };
    assert_eq!(
        resolve_visibility(&None, &config),
        Visibility { show_nsfw: false, show_bot_accounts: true }
    );
}

#[test]
fn viewer_preferences_decide_visibility() {
    let config = ReadConfig::standard();
    let v = ViewerContext { person_id: 9, show_nsfw: true, show_bot_accounts: false };
    assert_eq!(
        resolve_visibility(&Some(v), &config),
        Visibility { show_nsfw: true, show_bot_accounts: false }
    );
    assert_eq!(viewer_person_id(&Some(v)), Some(9));
}

#[test]
fn page_and_limit_are_clamped() {
    let config = ReadConfig::standard();
    assert_eq!(clamp_page(None), 1);
    assert_eq!(clamp_page(Some(0)), 1);
    assert_eq!(clamp_page(Some(-4)), 1);
    assert_eq!(clamp_page(Some(3)), 3);
    assert_eq!(clamp_limit(None, &config), 10);
    assert_eq!(clamp_limit(Some(0), &config), 1);
    assert_eq!(clamp_limit(Some(20), &config), 20);
    assert_eq!(clamp_limit(Some(50), &config), 50);
    assert_eq!(clamp_limit(Some(51), &config), 50);
    assert_eq!(clamp_limit(Some(i64::MAX), &config), 50);
}

#[test]
fn comment_query_uses_the_fixed_ceiling() {
    let config = ReadConfig::standard();
    let q = CommentQuerySpec::for_post(42, &Some(viewer()), &config);
    assert_eq!(
        q,
        CommentQuerySpec {
            post_id: 42,
            viewer_person_id: Some(3),
            show_bot_accounts: true,
            limit: COMMENT_LIMIT_CEILING,
        }
    );
    assert_eq!(q.limit, 9999);
}

#[test]
fn unknown_post_fails_fast() {
    let config = ReadConfig::standard();
    let read: Read = GetPost { id: 5 }.begin(&None, &config);
    assert_eq!(read.action(), DetailAction::ReadPost { post_id: 5, viewer_person_id: None });
    let (read, action) = read.step(Event::PostRead(Err(FetchError::Missing)));
    assert_eq!(action, DetailAction::Respond);
    assert!(read.is_done());
    let (read, action) = read.step(Event::CommentsListed(Ok(vec!["c".to_string()])));
    assert_eq!(action, DetailAction::Respond);
    let (read, action) = read.step(Event::OnlineCounted(Some(4)));
    assert_eq!(action, DetailAction::Respond);
    assert_eq!(read.into_outcome().unwrap_err(), ReadError::NotFound(Entity::Post));
}

#[test]
fn failed_post_read_is_a_query_failure() {
    let config = ReadConfig::standard();
    let read: Read = GetPost { id: 5 }.begin(&None, &config);
    let (read, action) = read.step(Event::PostRead(Err(FetchError::Failed)));
    assert_eq!(action, DetailAction::Respond);
    assert_eq!(read.into_outcome().unwrap_err(), ReadError::QueryFailed);
}

fn read_up_to_community(id: i32) -> Read {
    let config = ReadConfig::standard();
    let read: Read = GetPost { id }.begin(&None, &config);
    let (read, _) = read.step(Event::PostRead(Ok(("post".to_string(), 7))));
    let (read, _) = read.step(Event::CommentsListed(Ok(vec!["c1".to_string()])));
    let (read, action) = read.step(Event::ModeratorsListed(Ok(vec!["m1".to_string()])));
    assert_eq!(action, DetailAction::ReadCommunity { community_id: 7, viewer_person_id: None });
    read
}

#[test]
fn missing_community_fails_after_comments_and_moderators() {
    let read = read_up_to_community(42);
    let (read, action) = read.step(Event::CommunityRead(Err(FetchError::Missing)));
    assert_eq!(action, DetailAction::Respond);
    assert_eq!(read.into_outcome().unwrap_err(), ReadError::NotFound(Entity::Community));
}

#[test]
fn failed_community_read_is_a_query_failure() {
    let read = read_up_to_community(42);
    let (read, _) = read.step(Event::CommunityRead(Err(FetchError::Failed)));
    assert_eq!(read.into_outcome().unwrap_err(), ReadError::QueryFailed);
}

#[test]
fn failed_comment_listing_fails_the_read() {
    let config = ReadConfig::standard();
    let read: Read = GetPost { id: 1 }.begin(&None, &config);
    let (read, _) = read.step(Event::PostRead(Ok(("post".to_string(), 2))));
    let (read, action) = read.step(Event::CommentsListed(Err(FetchError::Failed)));
    assert_eq!(action, DetailAction::Respond);
    assert_eq!(read.into_outcome().unwrap_err(), ReadError::QueryFailed);
}

#[test]
fn failed_moderator_listing_fails_the_read() {
    let config = ReadConfig::standard();
    let read: Read = GetPost { id: 1 }.begin(&None, &config);
    let (read, _) = read.step(Event::PostRead(Ok(("post".to_string(), 2))));
    let (read, _) = read.step(Event::CommentsListed(Ok(vec![])));
    let (read, action) = read.step(Event::ModeratorsListed(Err(FetchError::Missing)));
    assert_eq!(action, DetailAction::Respond);
    assert_eq!(read.into_outcome().unwrap_err(), ReadError::QueryFailed);
}

#[test]
fn presence_failure_defaults_to_one_viewer() {
    let read = read_up_to_community(42);
    let (read, action) = read.step(Event::CommunityRead(Ok("community".to_string())));
    assert_eq!(action, DetailAction::CountOnline { post_id: 42 });
    let (read, action) = read.step(Event::OnlineCounted(None));
    assert_eq!(action, DetailAction::Respond);
    let response = read.into_outcome().unwrap();
    assert_eq!(response.online, DEFAULT_ONLINE);
    assert_eq!(response.online, 1);
}

#[test]
fn presence_count_is_reported() {
    let read = read_up_to_community(42);
    let (read, _) = read.step(Event::CommunityRead(Ok("community".to_string())));
    let (read, _) = read.step(Event::OnlineCounted(Some(17)));
    assert_eq!(read.into_outcome().unwrap().online, 17);
}

#[test]
fn unexpected_event_changes_nothing() {
    let config = ReadConfig::standard();
    let read: Read = GetPost { id: 8 }.begin(&None, &config);
    let (read, action) = read.step(Event::OnlineCounted(Some(3)));
    assert_eq!(action, DetailAction::ReadPost { post_id: 8, viewer_person_id: None });
    assert!(matches!(read.stage, DetailStage::AwaitPost));
}

#[test]
fn anonymous_read_of_post_42_in_community_7() {
    let config = ReadConfig::standard();
    let read: Read = GetPost { id: 42 }.begin(&None, &config);
    assert_eq!(read.action(), DetailAction::ReadPost { post_id: 42, viewer_person_id: None });
    let (read, action) = read.step(Event::PostRead(Ok(("post 42".to_string(), 7))));
    assert_eq!(
        action,
        DetailAction::ListComments(CommentQuerySpec {
            post_id: 42,
            viewer_person_id: None,
            show_bot_accounts: false,
            limit: 9999,
        })
    );
    let comments = vec!["comment a".to_string(), "comment b".to_string()];
    let (read, action) = read.step(Event::CommentsListed(Ok(comments.clone())));
    assert_eq!(action, DetailAction::ListModerators { community_id: 7 });
    let (read, action) = read.step(Event::ModeratorsListed(Ok(vec!["mod of 7".to_string()])));
    assert_eq!(action, DetailAction::ReadCommunity { community_id: 7, viewer_person_id: None });
    let (read, action) = read.step(Event::CommunityRead(Ok("community 7".to_string())));
    assert_eq!(action, DetailAction::CountOnline { post_id: 42 });
    let (read, action) = read.step(Event::OnlineCounted(None));
    assert_eq!(action, DetailAction::Respond);
    let GetPostResponse { post_view, community_view, comments: got, moderators, online } =
        read.into_outcome().unwrap();
    assert_eq!(post_view, "post 42");
    assert_eq!(community_view, "community 7");
    assert_eq!(got, comments);
    assert_eq!(moderators, vec!["mod of 7".to_string()]);
    assert_eq!(online, 1);
}

#[test]
fn bogus_sort_fails_before_any_read() {
    let config = ReadConfig::standard();
    let req = anonymous_feed("All", "Bogus", None, None);
    assert_eq!(
        PostQuerySpec::for_feed(&req, &None, &config).unwrap_err(),
        ReadError::InvalidEnum(EnumKind::SortType, "Bogus".to_string())
    );
}

#[test]
fn bad_listing_type_is_reported_first() {
    let config = ReadConfig::standard();
    let req = anonymous_feed("Everything", "Bogus", None, None);
    assert_eq!(
        PostQuerySpec::for_feed(&req, &None, &config).unwrap_err(),
        ReadError::InvalidEnum(EnumKind::ListingType, "Everything".to_string())
    );
}

#[test]
fn anonymous_subscribed_hot_feed_is_empty() {
    let config = ReadConfig::standard();
    let req = anonymous_feed("Subscribed", "Hot", Some(1), Some(20));
    let spec = PostQuerySpec::for_feed(&req, &None, &config).unwrap();
    assert_eq!(spec.listing_type, ListingType::Subscribed);
    assert_eq!(spec.sort, SortType::Hot);
    assert_eq!(spec.page, 1);
    assert_eq!(spec.limit, 20);
    assert_eq!(spec.viewer_person_id, None);
    assert!(!spec.show_nsfw);
    assert!(!spec.show_bot_accounts);
    assert!(spec.selects_no_posts());
    let response = GetPostsResponse::<String>::from_listing(Ok(vec![])).unwrap();
    assert!(response.posts.is_empty());
}

#[test]
fn feed_query_carries_every_request_field() {
    let config = ReadConfig::standard();
    let req = GetPosts {
        type_: "Community".to_string(),
        sort: "TopDay".to_string(),
        page: Some(0),
        limit: Some(500),
        community_id: Some(7),
        community_name: Some("rust".to_string()),
        saved_only: true,
    };
    let spec = PostQuerySpec::for_feed(&req, &Some(viewer()), &config).unwrap();
    assert_eq!(spec.listing_type, ListingType::Community);
    assert_eq!(spec.sort, SortType::TopDay);
    assert!(spec.show_nsfw);
    assert!(spec.show_bot_accounts);
    assert_eq!(spec.community_id, Some(7));
    assert_eq!(spec.community_name, Some("rust".to_string()));
    assert!(spec.saved_only);
    assert_eq!(spec.viewer_person_id, Some(3));
    assert_eq!(spec.page, 1);
    assert_eq!(spec.limit, 50);
    assert!(!spec.selects_no_posts());
}

#[test]
fn feed_listing_passes_posts_through_in_order() {
    let posts = vec!["b".to_string(), "a".to_string(), "c".to_string()];
    let response = GetPostsResponse::from_listing(Ok(posts.clone())).unwrap();
    assert_eq!(response.posts, posts);
}

#[test]
fn feed_storage_failure_is_query_failed() {
    assert_eq!(
        GetPostsResponse::<String>::from_listing(Err(FetchError::Failed)).unwrap_err(),
        ReadError::QueryFailed
    );
    assert_eq!(
        GetPostsResponse::<String>::from_listing(Err(FetchError::Missing)).unwrap_err(),
        ReadError::QueryFailed
    );
}
