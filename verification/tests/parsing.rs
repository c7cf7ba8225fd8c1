use youtube_stats::decode::{decode_channel_page, decode_error_envelope, decode_video_page};
use youtube_stats::flow::Request;
use youtube_stats::ident::{classify_identifier, IdentifierKind};
use youtube_stats::numbers::{parse_u32_or_zero, parse_u64_or_zero};
use youtube_stats::urls::request_url;

#[test]
fn classifies_canonical_ids() {
    assert_eq!(classify_identifier("UC_x5XG1OV2P6uZZ5FSM9Ttw"), IdentifierKind::Id);
    assert_eq!(classify_identifier("UC"), IdentifierKind::Id);
}

#[test]
fn classifies_handles_and_usernames() {
    assert_eq!(classify_identifier("@veritasium"), IdentifierKind::Handle);
    assert_eq!(classify_identifier("veritasium"), IdentifierKind::Username);
    assert_eq!(classify_identifier("U"), IdentifierKind::Username);
    assert_eq!(classify_identifier(""), IdentifierKind::Username);
}

#[test]
fn parses_plain_counts() {
    assert_eq!(parse_u64_or_zero("123"), 123);
    assert_eq!(parse_u64_or_zero("0"), 0);
    assert_eq!(parse_u64_or_zero("007"), 7);
    assert_eq!(parse_u64_or_zero("+42"), 42);
}

#[test]
fn unparsable_counts_become_zero() {
    assert_eq!(parse_u64_or_zero("N/A"), 0);
    assert_eq!(parse_u64_or_zero(""), 0);
    assert_eq!(parse_u64_or_zero("+"), 0);
    assert_eq!(parse_u64_or_zero("12x"), 0);
    assert_eq!(parse_u64_or_zero(" 12"), 0);
    assert_eq!(parse_u64_or_zero("-5"), 0);
}

#[test]
fn count_parsing_respects_the_type_range() {
    assert_eq!(parse_u64_or_zero("18446744073709551615"), u64::MAX);
    assert_eq!(parse_u64_or_zero("18446744073709551616"), 0);
    assert_eq!(parse_u32_or_zero("4294967295"), u32::MAX);
    assert_eq!(parse_u32_or_zero("4294967296"), 0);
}

#[test]
fn parsing_matches_std() {
    for s in ["", "N/A", "0", "007", "+42", "+", "12x", " 12", "-5", "184467440737095516159"] {
        assert_eq!(parse_u64_or_zero(s), s.parse::<u64>().unwrap_or(0), "case {s:?}");
        assert_eq!(parse_u32_or_zero(s), s.parse::<u32>().unwrap_or(0), "case {s:?}");
    }
}

const CHANNEL_BODY: &str = r#"{"items":[{"id":"UC123","snippet":{"title":"T","description":"D","customUrl":"@t","publishedAt":"2020-01-01T00:00:00Z","thumbnails":{"default":{"url":"du"},"high":{"url":"hu"}},"country":"US"},"statistics":{"viewCount":"1000","subscriberCount":"50","hiddenSubscriberCount":false,"videoCount":"7"},"contentDetails":{"relatedPlaylists":{"uploads":"UU123"}},"brandingSettings":{"channel":{"keywords":"a b c"}}}]}"#;

#[test]
fn decodes_a_full_channel() {
    let page = decode_channel_page(CHANNEL_BODY).expect("should decode");
    assert_eq!(page.items.len(), 1);
    let ch = &page.items[0];
    assert_eq!(ch.id, "UC123");
    assert_eq!(ch.title, "T");
    assert_eq!(ch.description, "D");
    assert_eq!(ch.custom_url, Some("@t".to_string()));
    assert_eq!(ch.published_at, "2020-01-01T00:00:00Z");
    assert_eq!(ch.country, Some("US".to_string()));
    assert_eq!(ch.thumbnails.default, Some("du".to_string()));
    assert_eq!(ch.thumbnails.medium, None);
    assert_eq!(ch.thumbnails.high, Some("hu".to_string()));
    assert_eq!(ch.view_count, Some("1000".to_string()));
    assert_eq!(ch.subscriber_count, Some("50".to_string()));
    assert!(!ch.hidden_subscriber_count);
    assert_eq!(ch.video_count, Some("7".to_string()));
    assert_eq!(ch.uploads_playlist, Some("UU123".to_string()));
    assert_eq!(ch.keywords, Some("a b c".to_string()));
}

#[test]
fn decodes_a_minimal_channel() {
    let body = r#"{"items":[{"id":"UC9","snippet":{"title":"t","description":"","publishedAt":"p","thumbnails":{}},"statistics":{"hiddenSubscriberCount":true}}]}"#;
    let page = decode_channel_page(body).expect("should decode");
    let ch = &page.items[0];
    assert!(ch.hidden_subscriber_count);
    assert_eq!(ch.view_count, None);
    assert_eq!(ch.uploads_playlist, None);
    assert_eq!(ch.keywords, None);
    assert_eq!(ch.custom_url, None);
}

#[test]
fn channel_decode_requires_the_required_fields() {
    // not JSON at all
    assert!(decode_channel_page("nonsense").is_none());
    // items missing
    assert!(decode_channel_page(r#"{"kind":"youtube#channelListResponse"}"#).is_none());
    // statistics missing
    assert!(decode_channel_page(
        r#"{"items":[{"id":"UC9","snippet":{"title":"t","description":"","publishedAt":"p","thumbnails":{}}}]}"#
    )
    .is_none());
    // hiddenSubscriberCount missing
    assert!(decode_channel_page(
        r#"{"items":[{"id":"UC9","snippet":{"title":"t","description":"","publishedAt":"p","thumbnails":{}},"statistics":{}}]}"#
    )
    .is_none());
    // thumbnails missing
    assert!(decode_channel_page(
        r#"{"items":[{"id":"UC9","snippet":{"title":"t","description":"","publishedAt":"p"},"statistics":{"hiddenSubscriberCount":false}}]}"#
    )
    .is_none());
    // a thumbnail without a url
    assert!(decode_channel_page(
        r#"{"items":[{"id":"UC9","snippet":{"title":"t","description":"","publishedAt":"p","thumbnails":{"default":{}}},"statistics":{"hiddenSubscriberCount":false}}]}"#
    )
    .is_none());
}

#[test]
fn an_empty_items_array_is_a_valid_page() {
    let page = decode_channel_page(r#"{"items":[]}"#).expect("should decode");
    assert_eq!(page.items.len(), 0);
}

#[test]
fn decodes_videos_with_and_without_statistics() {
    let body = r#"{"items":[{"id":{"videoId":"v1"},"snippet":{"title":"V1","description":"d1","publishedAt":"p1","thumbnails":{}},"statistics":{"viewCount":"100","likeCount":"10","commentCount":"5"}},{"id":{"videoId":"v2"},"snippet":{"title":"V2","publishedAt":"p2","thumbnails":{}}}]}"#;
    let page = decode_video_page(body).expect("should decode");
    assert_eq!(page.items.len(), 2);
    assert_eq!(page.items[0].video_id, "v1");
    assert_eq!(page.items[0].description, Some("d1".to_string()));
    let stats = page.items[0].stats.as_ref().expect("stats present");
    assert_eq!(stats.view_count, Some("100".to_string()));
    assert_eq!(stats.like_count, Some("10".to_string()));
    assert_eq!(stats.comment_count, Some("5".to_string()));
    assert_eq!(page.items[1].video_id, "v2");
    assert_eq!(page.items[1].description, None);
    assert!(page.items[1].stats.is_none());
}

#[test]
fn video_decode_accepts_both_id_shapes() {
    // the search listing nests the id, the batched statistics response
    // carries it as a plain string
    let body = r#"{"items":[{"id":"v1","snippet":{"title":"V1","publishedAt":"p1","thumbnails":{}}},{"id":{"videoId":"v2"},"snippet":{"title":"V2","publishedAt":"p2","thumbnails":{}}}]}"#;
    let page = decode_video_page(body).expect("should decode");
    assert_eq!(page.items[0].video_id, "v1");
    assert_eq!(page.items[1].video_id, "v2");
    // an id of neither shape fails the decode
    let body = r#"{"items":[{"id":7,"snippet":{"title":"V1","publishedAt":"p1","thumbnails":{}}}]}"#;
    assert!(decode_video_page(body).is_none());
}

#[test]
fn decodes_the_error_envelope() {
    let body = r#"{"error":{"code":403,"message":"quota exceeded","errors":[{"message":"m","domain":"usageLimits","reason":"quotaExceeded"}]}}"#;
    let env = decode_error_envelope(body).expect("should decode");
    assert_eq!(env.code, 403);
    assert_eq!(env.message, "quota exceeded");
    assert_eq!(env.first_reason, Some("quotaExceeded".to_string()));
}

#[test]
fn envelope_with_no_details_has_no_reason() {
    let body = r#"{"error":{"code":500,"message":"boom","errors":[]}}"#;
    let env = decode_error_envelope(body).expect("should decode");
    assert_eq!(env.code, 500);
    assert_eq!(env.first_reason, None);
}

#[test]
fn envelope_rejects_malformed_bodies() {
    assert!(decode_error_envelope("half a body").is_none());
    assert!(decode_error_envelope(r#"{"message":"no envelope"}"#).is_none());
    // code out of range
    assert!(decode_error_envelope(r#"{"error":{"code":5000000000,"message":"m","errors":[]}}"#).is_none());
    // a detail without a reason
    assert!(decode_error_envelope(
        r#"{"error":{"code":403,"message":"m","errors":[{"message":"m","domain":"d"}]}}"#
    )
    .is_none());
}

#[test]
fn renders_the_channel_details_url() {
    let req = Request::ChannelById { id: "UC123".to_string() };
    assert_eq!(
        request_url(&req, "KEY"),
        "https://www.googleapis.com/youtube/v3/channels?part=snippet,statistics,contentDetails,brandingSettings&id=UC123&key=KEY"
    );
    let req = Request::ChannelByUsername { username: "bob".to_string() };
    assert_eq!(
        request_url(&req, "KEY"),
        "https://www.googleapis.com/youtube/v3/channels?part=snippet,statistics,contentDetails,brandingSettings&forUsername=bob&key=KEY"
    );
}

#[test]
fn renders_the_search_urls() {
    let req = Request::HandleSearch { query: "veritasium".to_string() };
    assert_eq!(
        request_url(&req, "KEY"),
        "https://www.googleapis.com/youtube/v3/search?part=snippet&type=channel&q=veritasium&key=KEY"
    );
    let req = Request::ChannelSearch { query: "rust".to_string(), max_results: 50 };
    assert_eq!(
        request_url(&req, "KEY"),
        "https://www.googleapis.com/youtube/v3/search?part=snippet&type=channel&q=rust&maxResults=50&key=KEY"
    );
}

#[test]
fn renders_the_video_urls() {
    let req = Request::VideoSearch { channel_id: "UC123".to_string(), max_results: 10 };
    assert_eq!(
        request_url(&req, "KEY"),
        "https://www.googleapis.com/youtube/v3/search?part=id,snippet&channelId=UC123&maxResults=10&order=date&type=video&key=KEY"
    );
    let req = Request::VideoStats {
        ids: vec!["v1".to_string(), "v2".to_string(), "v3".to_string()],
    };
    assert_eq!(
        request_url(&req, "KEY"),
        "https://www.googleapis.com/youtube/v3/videos?part=statistics,snippet&id=v1,v2,v3&key=KEY"
    );
}
