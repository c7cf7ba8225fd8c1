//! Normalization of decoded records into the unified output shape.
//!
//! Counts are coerced from decimal strings, a hidden subscriber count is
//! surfaced as absent (never as zero), thumbnails keep only the present
//! size variants, and the recent-activity totals are the sums over
//! exactly the fetched page of videos — not channel-lifetime totals —
//! saturating at `u64::MAX`.

use vstd::prelude::*;
use vstd::string::StringExecFns;

use crate::numbers::{parse_u32_or_zero, parse_u64_or_zero, sat_u64, unsigned_or_zero};
use crate::records::{
    ChannelPage, ChannelRecord, ChannelSummary, NormalizedChannelResult, NormalizedVideo,
    ThumbnailSet, VideoRecord, VideoStatsRecord,
};

verus! {

/// The derived watch URL of a video.
pub open spec fn watch_url_of(id: Seq<char>) -> Seq<char> {
    "https://www.youtube.com/watch?v="@ + id
}

/// The derived channel URL of a channel.
pub open spec fn channel_url_of(id: Seq<char>) -> Seq<char> {
    "https://www.youtube.com/channel/"@ + id
}

/// What a raw count coerces to when asked for a plain integer: its
/// value when present and parsable, otherwise 0 — on absence too.
pub open spec fn count_or_zero(c: Option<String>) -> int {
    match c {
        Some(s) => unsigned_or_zero(s@, u64::MAX as int),
        None => 0,
    }
}

/// The same for a count read as a `u32`.
pub open spec fn count_or_zero_u32(c: Option<String>) -> int {
    match c {
        Some(s) => unsigned_or_zero(s@, u32::MAX as int),
        None => 0,
    }
}

pub open spec fn view_term(v: VideoRecord) -> int {
    match v.stats {
        Some(s) => count_or_zero(s.view_count),
        None => 0,
    }
}

pub open spec fn like_term(v: VideoRecord) -> int {
    match v.stats {
        Some(s) => count_or_zero(s.like_count),
        None => 0,
    }
}

pub open spec fn comment_term(v: VideoRecord) -> int {
    match v.stats {
        Some(s) => count_or_zero(s.comment_count),
        None => 0,
    }
}

/// Page total of views over a page of videos.
pub open spec fn sum_views(vs: Seq<VideoRecord>) -> int
    decreases vs.len(),
{
    if vs.len() == 0 {
        0
    } else {
        sum_views(vs.drop_last()) + view_term(vs.last())
    }
}

/// Page total of likes over a page of videos.
pub open spec fn sum_likes(vs: Seq<VideoRecord>) -> int
    decreases vs.len(),
{
    if vs.len() == 0 {
        0
    } else {
        sum_likes(vs.drop_last()) + like_term(vs.last())
    }
}

/// Page total of comments over a page of videos.
pub open spec fn sum_comments(vs: Seq<VideoRecord>) -> int
    decreases vs.len(),
{
    if vs.len() == 0 {
        0
    } else {
        sum_comments(vs.drop_last()) + comment_term(vs.last())
    }
}

/// What one raw count becomes in the output: present exactly when the
/// raw field is, a present-but-unparsable string as 0.
pub open spec fn norm_u64_count(c: Option<String>) -> Option<u64> {
    match c {
        Some(s) => Some(unsigned_or_zero(s@, u64::MAX as int) as u64),
        None => None,
    }
}

pub open spec fn norm_view_count(stats: Option<VideoStatsRecord>) -> Option<u64> {
    match stats {
        Some(s) => norm_u64_count(s.view_count),
        None => None,
    }
}

pub open spec fn norm_like_count(stats: Option<VideoStatsRecord>) -> Option<u64> {
    match stats {
        Some(s) => norm_u64_count(s.like_count),
        None => None,
    }
}

pub open spec fn norm_comment_count(stats: Option<VideoStatsRecord>) -> Option<u64> {
    match stats {
        Some(s) => norm_u64_count(s.comment_count),
        None => None,
    }
}

/// `out` is exactly the normalization of the video record `v`.
pub open spec fn is_normalized_video(out: NormalizedVideo, v: VideoRecord) -> bool {
    &&& out.video_id@ == v.video_id@
    &&& out.title@ == v.title@
    &&& out.published_at@ == v.published_at@
    &&& out.description == v.description
    &&& out.view_count == norm_view_count(v.stats)
    &&& out.like_count == norm_like_count(v.stats)
    &&& out.comment_count == norm_comment_count(v.stats)
    &&& out.video_url@ == watch_url_of(v.video_id@)
}

/// `out` is exactly the normalization of channel `ch` with the fetched
/// page `vs` of videos.
pub open spec fn is_normalized_channel(
    out: NormalizedChannelResult,
    ch: ChannelRecord,
    vs: Seq<VideoRecord>,
) -> bool {
    &&& out.channel_id@ == ch.id@
    &&& out.channel_title@ == ch.title@
    &&& out.channel_description@ == ch.description@
    &&& out.published_at@ == ch.published_at@
    &&& out.custom_url == ch.custom_url
    &&& out.country == ch.country
    &&& out.subscriber_count_hidden == ch.hidden_subscriber_count
    &&& out.subscriber_count == (if ch.hidden_subscriber_count {
        None
    } else {
        norm_u64_count(ch.subscriber_count)
    })
    &&& out.total_view_count == count_or_zero(ch.view_count)
    &&& out.video_count == count_or_zero_u32(ch.video_count)
    &&& out.thumbnails == ch.thumbnails
    &&& out.channel_keywords == ch.keywords
    &&& out.recent_videos.len() == vs.len()
    &&& (forall|i: int|
        0 <= i < vs.len() ==> is_normalized_video(#[trigger] out.recent_videos[i], vs[i]))
    &&& out.total_recent_views == sat_u64(sum_views(vs))
    &&& out.total_recent_likes == sat_u64(sum_likes(vs))
    &&& out.total_recent_comments == sat_u64(sum_comments(vs))
    &&& out.channel_url@ == channel_url_of(ch.id@)
}

/// `out` is exactly the search summary of channel `ch`.
pub open spec fn is_channel_summary(out: ChannelSummary, ch: ChannelRecord) -> bool {
    &&& out.channel_id@ == ch.id@
    &&& out.title@ == ch.title@
    &&& out.description@ == ch.description@
    &&& out.channel_url@ == channel_url_of(ch.id@)
    &&& out.custom_url == ch.custom_url
}

pub(crate) fn clone_string(s: &String) -> (r: String)
    ensures
        r == *s,
{
    s.clone()
}

pub(crate) fn clone_opt_string(o: &Option<String>) -> (r: Option<String>)
    ensures
        r == *o,
{
    match o {
        Some(s) => Some(s.clone()),
        None => None,
    }
}

fn clone_thumbnails(t: &ThumbnailSet) -> (r: ThumbnailSet)
    ensures
        r == *t,
{
    ThumbnailSet {
        default: clone_opt_string(&t.default),
        medium: clone_opt_string(&t.medium),
        high: clone_opt_string(&t.high),
    }
}

/// One raw optional count, coerced: present stays present, unparsable
/// becomes 0.
fn norm_count_field(c: &Option<String>) -> (r: Option<u64>)
    ensures
        r == norm_u64_count(*c),
{
    match c {
        Some(s) => Some(parse_u64_or_zero(s.as_str())),
        None => None,
    }
}

/// Normalizes one video: counts coerced, watch URL derived.
pub fn normalize_video(v: &VideoRecord) -> (r: NormalizedVideo)
    ensures
        is_normalized_video(r, *v),
{
    let (view_count, like_count, comment_count) = match &v.stats {
        Some(s) => (
            norm_count_field(&s.view_count),
            norm_count_field(&s.like_count),
            norm_count_field(&s.comment_count),
        ),
        None => (None, None, None),
    };
    let video_url = String::from_str("https://www.youtube.com/watch?v=").concat(
        v.video_id.as_str(),
    );
    NormalizedVideo {
        video_id: clone_string(&v.video_id),
        title: clone_string(&v.title),
        published_at: clone_string(&v.published_at),
        description: clone_opt_string(&v.description),
        view_count,
        like_count,
        comment_count,
        video_url,
    }
}

proof fn lemma_sums_prefix_step(vs: Seq<VideoRecord>, i: int)
    requires
        0 <= i < vs.len(),
    ensures
        sum_views(vs.subrange(0, i + 1)) == sum_views(vs.subrange(0, i)) + view_term(vs[i]),
        sum_likes(vs.subrange(0, i + 1)) == sum_likes(vs.subrange(0, i)) + like_term(vs[i]),
        sum_comments(vs.subrange(0, i + 1)) == sum_comments(vs.subrange(0, i)) + comment_term(
            vs[i],
        ),
{
    let p = vs.subrange(0, i);
    let q = vs.subrange(0, i + 1);
    assert(q.drop_last() =~= p);
    assert(q.last() == vs[i]);
}

/// Normalizes a resolved channel together with its fetched page of
/// videos into the unified output.
pub fn normalize_channel(ch: &ChannelRecord, videos: &Vec<VideoRecord>) -> (r:
    NormalizedChannelResult)
    ensures
        is_normalized_channel(r, *ch, videos@),
{
    let subscriber_count: Option<u64> = if ch.hidden_subscriber_count {
        None
    } else {
        norm_count_field(&ch.subscriber_count)
    };
    let total_view_count: u64 = match &ch.view_count {
        Some(s) => parse_u64_or_zero(s.as_str()),
        None => 0,
    };
    let video_count: u32 = match &ch.video_count {
        Some(s) => parse_u32_or_zero(s.as_str()),
        None => 0,
    };
    let mut recent_videos: Vec<NormalizedVideo> = Vec::new();
    let mut total_views: u64 = 0;
    let mut total_likes: u64 = 0;
    let mut total_comments: u64 = 0;
    let n = videos.len();
    let mut i: usize = 0;
    while i < n
        invariant
            i <= n,
            n == videos@.len(),
            recent_videos@.len() == i,
            forall|j: int|
                0 <= j < i ==> is_normalized_video(#[trigger] recent_videos@[j], videos@[j]),
            total_views == sat_u64(sum_views(videos@.subrange(0, i as int))),
            total_likes == sat_u64(sum_likes(videos@.subrange(0, i as int))),
            total_comments == sat_u64(sum_comments(videos@.subrange(0, i as int))),
        decreases n - i,
    {
        let nv = normalize_video(&videos[i]);
        let tv: u64 = match nv.view_count {
            Some(c) => c,
            None => 0,
        };
        let tl: u64 = match nv.like_count {
            Some(c) => c,
            None => 0,
        };
        let tc: u64 = match nv.comment_count {
            Some(c) => c,
            None => 0,
        };
        proof {
            crate::numbers::lemma_unsigned_or_zero_range_all();
            assert(tv == view_term(videos@[i as int]));
            assert(tl == like_term(videos@[i as int]));
            assert(tc == comment_term(videos@[i as int]));
            lemma_sums_prefix_step(videos@, i as int);
        }
        total_views = total_views.saturating_add(tv);
        total_likes = total_likes.saturating_add(tl);
        total_comments = total_comments.saturating_add(tc);
        recent_videos.push(nv);
        i = i + 1;
    }
    proof {
        assert(videos@.subrange(0, n as int) =~= videos@);
    }
    let channel_url = String::from_str("https://www.youtube.com/channel/").concat(ch.id.as_str());
    NormalizedChannelResult {
        channel_id: clone_string(&ch.id),
        channel_title: clone_string(&ch.title),
        channel_description: clone_string(&ch.description),
        published_at: clone_string(&ch.published_at),
        custom_url: clone_opt_string(&ch.custom_url),
        country: clone_opt_string(&ch.country),
        subscriber_count,
        subscriber_count_hidden: ch.hidden_subscriber_count,
        total_view_count,
        video_count,
        thumbnails: clone_thumbnails(&ch.thumbnails),
        channel_keywords: clone_opt_string(&ch.keywords),
        recent_videos,
        total_recent_views: total_views,
        total_recent_likes: total_likes,
        total_recent_comments: total_comments,
        channel_url,
    }
}

/// Maps one search hit to its summary shape.
pub fn summarize_channel(ch: &ChannelRecord) -> (r: ChannelSummary)
    ensures
        is_channel_summary(r, *ch),
{
    let channel_url = String::from_str("https://www.youtube.com/channel/").concat(ch.id.as_str());
    ChannelSummary {
        channel_id: clone_string(&ch.id),
        title: clone_string(&ch.title),
        description: clone_string(&ch.description),
        channel_url,
        custom_url: clone_opt_string(&ch.custom_url),
    }
}

/// Maps every hit of a search page to its summary.
pub fn summarize_page(page: &ChannelPage) -> (r: Vec<ChannelSummary>)
    ensures
        r@.len() == page.items@.len(),
        forall|i: int|
            0 <= i < page.items@.len() ==> is_channel_summary(#[trigger] r@[i], page.items@[i]),
{
    let mut out: Vec<ChannelSummary> = Vec::new();
    let n = page.items.len();
    let mut i: usize = 0;
    while i < n
        invariant
            i <= n,
            n == page.items@.len(),
            out@.len() == i,
            forall|j: int|
                0 <= j < i ==> is_channel_summary(#[trigger] out@[j], page.items@[j]),
        decreases n - i,
    {
        out.push(summarize_channel(&page.items[i]));
        i = i + 1;
    }
    out
}

} // verus!
