use youtube_stats::flow::{
    channel_search_request, finish_channel_search, resume_channel_stats, start_channel_stats,
    FetchOutcome, Request, StatsState, StatsStep,
};
use youtube_stats::normalize::{normalize_channel, normalize_video};
use youtube_stats::records::{
    ApiError, ChannelRecord, ThumbnailSet, VideoRecord, VideoStatsRecord,
};

const CHANNEL_BODY: &str = r#"{"items":[{"id":"UC123","snippet":{"title":"T","description":"D","customUrl":"@t","publishedAt":"2020-01-01T00:00:00Z","thumbnails":{"default":{"url":"du"},"high":{"url":"hu"}},"country":"US"},"statistics":{"viewCount":"1000","subscriberCount":"50","hiddenSubscriberCount":false,"videoCount":"7"},"contentDetails":{"relatedPlaylists":{"uploads":"UU123"}},"brandingSettings":{"channel":{"keywords":"a b c"}}}]}"#;

const VIDEO_SEARCH_BODY: &str = r#"{"items":[{"id":{"videoId":"v1"},"snippet":{"title":"V1","description":"d1","publishedAt":"p1","thumbnails":{}}},{"id":{"videoId":"v2"},"snippet":{"title":"V2","publishedAt":"p2","thumbnails":{}}}]}"#;

// the batched statistics response carries plain string ids
const VIDEO_STATS_BODY: &str = r#"{"items":[{"id":"v1","snippet":{"title":"V1","description":"d1","publishedAt":"p1","thumbnails":{}},"statistics":{"viewCount":"100","likeCount":"10","commentCount":"5"}},{"id":"v2","snippet":{"title":"V2","publishedAt":"p2","thumbnails":{}},"statistics":{"viewCount":"N/A","likeCount":"3"}}]}"#;

fn response(status: u16, body: &str) -> FetchOutcome {
    FetchOutcome::Response { status, body: body.to_string() }
}

fn plain_channel(uploads: Option<&str>) -> ChannelRecord {
    ChannelRecord {
        id: "UC123".to_string(),
        title: "T".to_string(),
        description: "D".to_string(),
        custom_url: None,
        published_at: "2020".to_string(),
        country: None,
        thumbnails: ThumbnailSet { default: None, medium: None, high: None },
        view_count: Some("1000".to_string()),
        subscriber_count: Some("50".to_string()),
        hidden_subscriber_count: false,
        video_count: Some("7".to_string()),
        uploads_playlist: uploads.map(|s| s.to_string()),
        keywords: None,
    }
}

#[test]
fn id_lookup_plans_one_details_request() {
    let (req, state) = start_channel_stats("UC123".to_string(), Some(2));
    assert_eq!(req, Request::ChannelById { id: "UC123".to_string() });
    assert_eq!(
        state,
        StatsState::AwaitPrimary { identifier: "UC123".to_string(), limit: 2 }
    );
}

#[test]
fn handle_lookup_plans_a_search_first() {
    let (req, state) = start_channel_stats("@veritasium".to_string(), None);
    assert_eq!(req, Request::HandleSearch { query: "veritasium".to_string() });
    assert_eq!(
        state,
        StatsState::AwaitPrimary { identifier: "@veritasium".to_string(), limit: 10 }
    );
}

#[test]
fn username_lookup_plans_a_for_username_request() {
    let (req, _state) = start_channel_stats("veritasium".to_string(), None);
    assert_eq!(req, Request::ChannelByUsername { username: "veritasium".to_string() });
}

#[test]
fn full_id_lookup_normalizes_channel_and_videos() {
    let (_, state) = start_channel_stats("UC123".to_string(), Some(2));
    let step = resume_channel_stats(state, response(200, CHANNEL_BODY));
    let (request, state) = match step {
        StatsStep::Next { request, state } => (request, state),
        other => panic!("expected the video search next, got {other:?}"),
    };
    assert_eq!(
        request,
        Request::VideoSearch { channel_id: "UC123".to_string(), max_results: 2 }
    );
    let step = resume_channel_stats(state, response(200, VIDEO_SEARCH_BODY));
    let (request, state) = match step {
        StatsStep::Next { request, state } => (request, state),
        other => panic!("expected the batched statistics request next, got {other:?}"),
    };
    assert_eq!(
        request,
        Request::VideoStats { ids: vec!["v1".to_string(), "v2".to_string()] }
    );
    let result = match resume_channel_stats(state, response(200, VIDEO_STATS_BODY)) {
        StatsStep::Done { result } => result,
        other => panic!("expected the finished result, got {other:?}"),
    };
    assert_eq!(result.channel_id, "UC123");
    assert_eq!(result.channel_title, "T");
    assert_eq!(result.custom_url, Some("@t".to_string()));
    assert_eq!(result.country, Some("US".to_string()));
    assert_eq!(result.subscriber_count, Some(50));
    assert!(!result.subscriber_count_hidden);
    assert_eq!(result.total_view_count, 1000);
    assert_eq!(result.video_count, 7);
    assert_eq!(result.thumbnails.default, Some("du".to_string()));
    assert_eq!(result.thumbnails.medium, None);
    assert_eq!(result.thumbnails.high, Some("hu".to_string()));
    assert_eq!(result.channel_keywords, Some("a b c".to_string()));
    assert_eq!(result.channel_url, "https://www.youtube.com/channel/UC123");
    assert_eq!(result.recent_videos.len(), 2);
    let v1 = &result.recent_videos[0];
    assert_eq!(v1.video_id, "v1");
    assert_eq!(v1.view_count, Some(100));
    assert_eq!(v1.like_count, Some(10));
    assert_eq!(v1.comment_count, Some(5));
    assert_eq!(v1.video_url, "https://www.youtube.com/watch?v=v1");
    let v2 = &result.recent_videos[1];
    assert_eq!(v2.view_count, Some(0), "an unparsable count surfaces as 0");
    assert_eq!(v2.like_count, Some(3));
    assert_eq!(v2.comment_count, None);
    assert_eq!(result.total_recent_views, 100);
    assert_eq!(result.total_recent_likes, 13);
    assert_eq!(result.total_recent_comments, 5);
}

#[test]
fn handle_lookup_hydrates_via_the_first_hit() {
    let (_, state) = start_channel_stats("@tee".to_string(), None);
    let step = resume_channel_stats(state, response(200, CHANNEL_BODY));
    let (request, state) = match step {
        StatsStep::Next { request, state } => (request, state),
        other => panic!("expected the hydrating details request, got {other:?}"),
    };
    assert_eq!(request, Request::ChannelById { id: "UC123".to_string() });
    assert_eq!(state, StatsState::AwaitHydrate { limit: 10 });
    let step = resume_channel_stats(state, response(200, CHANNEL_BODY));
    match step {
        StatsStep::Next { request, .. } => assert_eq!(
            request,
            Request::VideoSearch { channel_id: "UC123".to_string(), max_results: 10 }
        ),
        other => panic!("expected the video search next, got {other:?}"),
    }
}

#[test]
fn empty_items_surface_as_not_found() {
    let (_, state) = start_channel_stats("UC123".to_string(), None);
    let step = resume_channel_stats(state, response(200, r#"{"items":[]}"#));
    assert_eq!(step, StatsStep::Fail { error: ApiError::NotFound });
}

#[test]
fn an_undecodable_channel_body_is_a_decode_failure() {
    let (_, state) = start_channel_stats("UC123".to_string(), None);
    let step = resume_channel_stats(state, response(200, "not json"));
    assert_eq!(step, StatsStep::Fail { error: ApiError::DecodeFailure });
}

#[test]
fn transport_failure_propagates_in_resolution() {
    let (_, state) = start_channel_stats("UC123".to_string(), None);
    let step = resume_channel_stats(
        state,
        FetchOutcome::TransportError { detail: "connection refused".to_string() },
    );
    assert_eq!(
        step,
        StatsStep::Fail {
            error: ApiError::TransportFailure { detail: "connection refused".to_string() }
        }
    );
}

#[test]
fn quota_envelope_surfaces_code_and_reason() {
    let body = r#"{"error":{"code":403,"message":"quota exceeded","errors":[{"message":"m","domain":"usageLimits","reason":"quotaExceeded"}]}}"#;
    let (_, state) = start_channel_stats("UC123".to_string(), None);
    let step = resume_channel_stats(state, response(403, body));
    assert_eq!(
        step,
        StatsStep::Fail {
            error: ApiError::HttpStatusFailure {
                status: 403,
                message: "quota exceeded".to_string(),
                reason: Some("quotaExceeded".to_string()),
            }
        }
    );
}

#[test]
fn non_envelope_error_body_falls_back_to_status_and_body() {
    let (_, state) = start_channel_stats("UC123".to_string(), None);
    let step = resume_channel_stats(state, response(500, "internal error"));
    assert_eq!(
        step,
        StatsStep::Fail {
            error: ApiError::HttpStatusFailure {
                status: 500,
                message: "internal error".to_string(),
                reason: None,
            }
        }
    );
}

#[test]
fn missing_uploads_playlist_still_succeeds_with_no_videos() {
    let body = r#"{"items":[{"id":"UC9","snippet":{"title":"t","description":"","publishedAt":"p","thumbnails":{}},"statistics":{"hiddenSubscriberCount":false}}]}"#;
    let (_, state) = start_channel_stats("UC9".to_string(), None);
    let result = match resume_channel_stats(state, response(200, body)) {
        StatsStep::Done { result } => result,
        other => panic!("expected immediate success, got {other:?}"),
    };
    assert_eq!(result.recent_videos.len(), 0);
    assert_eq!(result.total_recent_views, 0);
    assert_eq!(result.total_recent_likes, 0);
    assert_eq!(result.total_recent_comments, 0);
}

#[test]
fn enrichment_failures_degrade_to_no_videos() {
    let ch = plain_channel(Some("UU123"));
    let result = match resume_channel_stats(
        StatsState::AwaitVideoSearch { channel: ch },
        response(500, "oops"),
    ) {
        StatsStep::Done { result } => result,
        other => panic!("expected a finished result, got {other:?}"),
    };
    assert_eq!(result.recent_videos.len(), 0);
    assert_eq!(result.total_recent_views, 0);

    let ch = plain_channel(Some("UU123"));
    let result = match resume_channel_stats(
        StatsState::AwaitVideoStats { channel: ch },
        FetchOutcome::TransportError { detail: "timed out".to_string() },
    ) {
        StatsStep::Done { result } => result,
        other => panic!("expected a finished result, got {other:?}"),
    };
    assert_eq!(result.recent_videos.len(), 0);

    let ch = plain_channel(Some("UU123"));
    let result = match resume_channel_stats(
        StatsState::AwaitVideoSearch { channel: ch },
        response(200, "not json"),
    ) {
        StatsStep::Done { result } => result,
        other => panic!("expected a finished result, got {other:?}"),
    };
    assert_eq!(result.recent_videos.len(), 0);
}

#[test]
fn an_empty_video_search_finishes_without_a_stats_request() {
    let ch = plain_channel(Some("UU123"));
    let result = match resume_channel_stats(
        StatsState::AwaitVideoSearch { channel: ch },
        response(200, r#"{"items":[]}"#),
    ) {
        StatsStep::Done { result } => result,
        other => panic!("expected a finished result, got {other:?}"),
    };
    assert_eq!(result.recent_videos.len(), 0);
    assert_eq!(result.total_view_count, 1000);
}

#[test]
fn hidden_subscriber_count_is_absent_not_zero() {
    let mut ch = plain_channel(None);
    ch.hidden_subscriber_count = true;
    ch.subscriber_count = Some("12345".to_string());
    let result = normalize_channel(&ch, &Vec::new());
    assert_eq!(result.subscriber_count, None);
    assert!(result.subscriber_count_hidden);
}

#[test]
fn unparsable_channel_counts_normalize_to_zero() {
    let mut ch = plain_channel(None);
    ch.view_count = Some("N/A".to_string());
    ch.subscriber_count = Some("many".to_string());
    ch.video_count = Some("4294967296".to_string());
    let result = normalize_channel(&ch, &Vec::new());
    assert_eq!(result.total_view_count, 0);
    assert_eq!(result.subscriber_count, Some(0));
    assert_eq!(result.video_count, 0);
}

#[test]
fn absent_view_and_video_counts_default_to_zero() {
    let mut ch = plain_channel(None);
    ch.view_count = None;
    ch.subscriber_count = None;
    ch.video_count = None;
    let result = normalize_channel(&ch, &Vec::new());
    assert_eq!(result.total_view_count, 0);
    assert_eq!(result.video_count, 0);
    assert_eq!(result.subscriber_count, None);
    assert!(!result.subscriber_count_hidden);
}

#[test]
fn a_video_without_statistics_surfaces_no_counts() {
    let v = VideoRecord {
        video_id: "v9".to_string(),
        title: "t".to_string(),
        description: None,
        published_at: "p".to_string(),
        stats: None,
    };
    let nv = normalize_video(&v);
    assert_eq!(nv.view_count, None);
    assert_eq!(nv.like_count, None);
    assert_eq!(nv.comment_count, None);
    assert_eq!(nv.video_url, "https://www.youtube.com/watch?v=v9");
}

#[test]
fn totals_saturate_instead_of_overflowing() {
    let max = u64::MAX.to_string();
    let videos: Vec<VideoRecord> = (0..2)
        .map(|i| VideoRecord {
            video_id: format!("v{i}"),
            title: "t".to_string(),
            description: None,
            published_at: "p".to_string(),
            stats: Some(VideoStatsRecord {
                view_count: Some(max.clone()),
                like_count: Some("1".to_string()),
                comment_count: None,
            }),
        })
        .collect();
    let result = normalize_channel(&plain_channel(None), &videos);
    assert_eq!(result.total_recent_views, u64::MAX);
    assert_eq!(result.total_recent_likes, 2);
}

#[test]
fn search_count_is_clamped_to_fifty() {
    let req = channel_search_request("rust".to_string(), Some(100));
    assert_eq!(
        req,
        Request::ChannelSearch { query: "rust".to_string(), max_results: 50 }
    );
    let req = channel_search_request("rust".to_string(), None);
    assert_eq!(req, Request::ChannelSearch { query: "rust".to_string(), max_results: 5 });
    let req = channel_search_request("rust".to_string(), Some(7));
    assert_eq!(req, Request::ChannelSearch { query: "rust".to_string(), max_results: 7 });
}

#[test]
fn search_maps_every_hit_to_a_summary() {
    let body = r#"{"items":[{"id":"UC1","snippet":{"title":"One","description":"d1","customUrl":"@one","publishedAt":"p","thumbnails":{}},"statistics":{"hiddenSubscriberCount":false}},{"id":"UC2","snippet":{"title":"Two","description":"d2","publishedAt":"p","thumbnails":{}},"statistics":{"hiddenSubscriberCount":false}}]}"#;
    let list = finish_channel_search(response(200, body)).expect("should succeed");
    assert_eq!(list.len(), 2);
    assert_eq!(list[0].channel_id, "UC1");
    assert_eq!(list[0].title, "One");
    assert_eq!(list[0].description, "d1");
    assert_eq!(list[0].channel_url, "https://www.youtube.com/channel/UC1");
    assert_eq!(list[0].custom_url, Some("@one".to_string()));
    assert_eq!(list[1].channel_id, "UC2");
    assert_eq!(list[1].custom_url, None);
}

#[test]
fn search_failures_surface_status_and_raw_body() {
    // unlike resolution, the search path decodes no error envelope
    let body = r#"{"error":{"code":403,"message":"quota exceeded","errors":[]}}"#;
    let err = finish_channel_search(response(403, body)).expect_err("should fail");
    assert_eq!(
        err,
        ApiError::HttpStatusFailure { status: 403, message: body.to_string(), reason: None }
    );
    let err = finish_channel_search(FetchOutcome::TransportError {
        detail: "no route".to_string(),
    })
    .expect_err("should fail");
    assert_eq!(err, ApiError::TransportFailure { detail: "no route".to_string() });
    let err = finish_channel_search(response(200, "not json")).expect_err("should fail");
    assert_eq!(err, ApiError::DecodeFailure);
}

#[test]
fn an_empty_search_is_an_empty_result_not_an_error() {
    let list = finish_channel_search(response(200, r#"{"items":[]}"#)).expect("should succeed");
    assert!(list.is_empty());
}
