//! The laws of the library, each proved once and for all inputs: which
//! requests each lookup strategy issues, how hidden and unparsable
//! counts surface, how the page totals relate to the enriched videos,
//! the search-count clamp, and the failure taxonomy's edge cases.

use vstd::prelude::*;

use crate::flow::{
    enrich_step_ok, hydrate_step_ok, primary_step_ok, resolution_error_matches,
    spec_clamped_results, spec_initial_request, video_search_step_ok, video_stats_step_ok,
    Request, StatsState, StatsStep,
};
use crate::ident::{is_handle_shape, is_id_shape};
use crate::normalize::{
    is_normalized_channel, is_normalized_video, sum_comments, sum_likes, sum_views,
};
use crate::numbers::{lemma_unsigned_or_zero_range_all, parses_as_unsigned, sat_u64};
use crate::records::{
    ApiError, ChannelPage, ChannelRecord, ErrorEnvelope, NormalizedChannelResult,
    NormalizedVideo, VideoPage, VideoRecord,
};

verus! {

/// The step issues another channel lookup: a channel-details request or
/// a channel search. (The enrichment chain's video requests are not
/// channel lookups.)
pub open spec fn issues_channel_lookup(r: StatsStep) -> bool {
    &&& r matches StatsStep::Next { request, .. }
    &&& {
        ||| request is ChannelById
        ||| request is ChannelByUsername
        ||| request is HandleSearch
        ||| request is ChannelSearch
    }
}

/// A lookup for a `"UC"`-prefixed identifier issues exactly one
/// channel-details request — the initial one, carrying the identifier
/// as its `id` — and never a search: however the first response's body
/// decoded, the following step issues no further channel lookup.
pub proof fn lemma_id_lookup_single_details(
    req: Request,
    identifier: Seq<char>,
    limit: u32,
    r: StatsStep,
    page: Option<ChannelPage>,
)
    requires
        is_id_shape(identifier),
        spec_initial_request(req, identifier),
        primary_step_ok(r, identifier, limit, page),
    ensures
        req matches Request::ChannelById { id } && id@ == identifier,
        !issues_channel_lookup(r),
{
    assert(!is_handle_shape(identifier));
}

/// A lookup for an `"@"`-prefixed identifier issues the search first —
/// for the identifier with its prefix stripped — then, once the search
/// decoded with at least one hit, exactly one channel-details request
/// carrying the first hit's id; the hydrating response never leads to
/// another channel lookup.
pub proof fn lemma_handle_lookup_searches_then_hydrates(
    req: Request,
    identifier: Seq<char>,
    limit: u32,
    r: StatsStep,
    page: ChannelPage,
    r2: StatsStep,
    page2: Option<ChannelPage>,
)
    requires
        is_handle_shape(identifier),
        spec_initial_request(req, identifier),
        primary_step_ok(r, identifier, limit, Some(page)),
        page.items.len() > 0,
        hydrate_step_ok(r2, limit, page2),
    ensures
        req matches Request::HandleSearch { query } && query@ == identifier.skip(1),
        ({
            &&& r matches StatsStep::Next { request, state }
            &&& request matches Request::ChannelById { id } && id@ == page.items[0].id@
            &&& state matches StatsState::AwaitHydrate { limit: l } && l == limit
        }),
        !issues_channel_lookup(r2),
{
    assert(!is_id_shape(identifier));
}

/// A lookup for a plain username issues exactly one channel-details
/// request — the initial one, carrying the identifier as `forUsername`
/// — and never a search.
pub proof fn lemma_username_lookup_single_details(
    req: Request,
    identifier: Seq<char>,
    limit: u32,
    r: StatsStep,
    page: Option<ChannelPage>,
)
    requires
        !is_id_shape(identifier),
        !is_handle_shape(identifier),
        spec_initial_request(req, identifier),
        primary_step_ok(r, identifier, limit, page),
    ensures
        req matches Request::ChannelByUsername { username } && username@ == identifier,
        !issues_channel_lookup(r),
{
}

/// No step of the enrichment chain issues a channel lookup: the
/// recent-videos search leads at most to the batched statistics
/// request, and that one only to the finished result.
pub proof fn lemma_enrichment_no_channel_lookup(
    ch: ChannelRecord,
    r1: StatsStep,
    page1: Option<VideoPage>,
    r2: StatsStep,
    page2: Option<VideoPage>,
)
    requires
        video_search_step_ok(r1, ch, page1),
        video_stats_step_ok(r2, ch, page2),
    ensures
        !issues_channel_lookup(r1),
        !issues_channel_lookup(r2),
{
}

/// Video enrichment is best-effort: however the bodies of its two
/// responses decoded, no step of it fails the lookup — each one either
/// plans the next enrichment request or finishes with a result.
pub proof fn lemma_enrichment_never_fails(
    ch: ChannelRecord,
    r1: StatsStep,
    page1: Option<VideoPage>,
    r2: StatsStep,
    page2: Option<VideoPage>,
)
    requires
        video_search_step_ok(r1, ch, page1),
        video_stats_step_ok(r2, ch, page2),
    ensures
        !(r1 is Fail),
        !(r2 is Fail),
{
}

/// A hidden subscriber count surfaces as an absent count together with
/// the hidden flag — never as zero — whatever the raw field held.
pub proof fn lemma_hidden_subscriber_count(
    out: NormalizedChannelResult,
    ch: ChannelRecord,
    vs: Seq<VideoRecord>,
)
    requires
        is_normalized_channel(out, ch, vs),
        ch.hidden_subscriber_count,
    ensures
        out.subscriber_count is None,
        out.subscriber_count_hidden,
{
}

/// Sum of the view counts the normalized entries surface.
pub open spec fn entries_sum_views(nvs: Seq<NormalizedVideo>) -> int
    decreases nvs.len(),
{
    if nvs.len() == 0 {
        0
    } else {
        entries_sum_views(nvs.drop_last()) + (match nvs.last().view_count {
            Some(c) => c as int,
            None => 0,
        })
    }
}

/// Sum of the like counts the normalized entries surface.
pub open spec fn entries_sum_likes(nvs: Seq<NormalizedVideo>) -> int
    decreases nvs.len(),
{
    if nvs.len() == 0 {
        0
    } else {
        entries_sum_likes(nvs.drop_last()) + (match nvs.last().like_count {
            Some(c) => c as int,
            None => 0,
        })
    }
}

/// Sum of the comment counts the normalized entries surface.
pub open spec fn entries_sum_comments(nvs: Seq<NormalizedVideo>) -> int
    decreases nvs.len(),
{
    if nvs.len() == 0 {
        0
    } else {
        entries_sum_comments(nvs.drop_last()) + (match nvs.last().comment_count {
            Some(c) => c as int,
            None => 0,
        })
    }
}

proof fn lemma_entry_sums_match(nvs: Seq<NormalizedVideo>, vs: Seq<VideoRecord>)
    requires
        nvs.len() == vs.len(),
        forall|i: int| 0 <= i < vs.len() ==> is_normalized_video(#[trigger] nvs[i], vs[i]),
    ensures
        entries_sum_views(nvs) == sum_views(vs),
        entries_sum_likes(nvs) == sum_likes(vs),
        entries_sum_comments(nvs) == sum_comments(vs),
    decreases vs.len(),
{
    if vs.len() > 0 {
        let np = nvs.drop_last();
        let vp = vs.drop_last();
        assert(forall|i: int| 0 <= i < vp.len() ==> is_normalized_video(#[trigger] np[i], vp[i]));
        lemma_entry_sums_match(np, vp);
        assert(is_normalized_video(nvs.last(), vs.last()));
        lemma_unsigned_or_zero_range_all();
    }
}

/// The aggregate totals are the sums of the per-video counts actually
/// present in the enriched page — equivalently, the sums over the
/// normalized entries themselves — saturating at `u64::MAX`; an empty
/// page yields totals of 0.
pub proof fn lemma_page_totals(
    out: NormalizedChannelResult,
    ch: ChannelRecord,
    vs: Seq<VideoRecord>,
)
    requires
        is_normalized_channel(out, ch, vs),
    ensures
        out.total_recent_views == sat_u64(sum_views(vs)),
        out.total_recent_likes == sat_u64(sum_likes(vs)),
        out.total_recent_comments == sat_u64(sum_comments(vs)),
        out.total_recent_views == sat_u64(entries_sum_views(out.recent_videos@)),
        out.total_recent_likes == sat_u64(entries_sum_likes(out.recent_videos@)),
        out.total_recent_comments == sat_u64(entries_sum_comments(out.recent_videos@)),
        vs.len() == 0 ==> out.total_recent_views == 0 && out.total_recent_likes == 0
            && out.total_recent_comments == 0,
{
    lemma_entry_sums_match(out.recent_videos@, vs);
}

/// A present-but-unparsable channel count string normalizes to 0 —
/// never an error — for the view, subscriber (when not hidden) and
/// video counts; an absent view or video count also surfaces as 0.
pub proof fn lemma_unparsable_channel_counts_zero(
    out: NormalizedChannelResult,
    ch: ChannelRecord,
    vs: Seq<VideoRecord>,
)
    requires
        is_normalized_channel(out, ch, vs),
    ensures
        (ch.subscriber_count matches Some(raw) && !ch.hidden_subscriber_count
            && !parses_as_unsigned(raw@, u64::MAX as int)) ==> out.subscriber_count == Some(0u64),
        (ch.view_count matches Some(raw) && !parses_as_unsigned(raw@, u64::MAX as int))
            ==> out.total_view_count == 0,
        ch.view_count is None ==> out.total_view_count == 0,
        (ch.video_count matches Some(raw) && !parses_as_unsigned(raw@, u32::MAX as int))
            ==> out.video_count == 0,
        ch.video_count is None ==> out.video_count == 0,
{
}

/// A present-but-unparsable per-video count string normalizes to 0,
/// never an error.
pub proof fn lemma_unparsable_video_counts_zero(nv: NormalizedVideo, v: VideoRecord)
    requires
        is_normalized_video(nv, v),
    ensures
        (v.stats matches Some(st) && st.view_count matches Some(raw) && !parses_as_unsigned(
            raw@,
            u64::MAX as int,
        )) ==> nv.view_count == Some(0u64),
        (v.stats matches Some(st) && st.like_count matches Some(raw) && !parses_as_unsigned(
            raw@,
            u64::MAX as int,
        )) ==> nv.like_count == Some(0u64),
        (v.stats matches Some(st) && st.comment_count matches Some(raw) && !parses_as_unsigned(
            raw@,
            u64::MAX as int,
        )) ==> nv.comment_count == Some(0u64),
{
}

/// The requested search result count is clamped to 50 before anything
/// goes upstream — a request for 100 becomes 50 — and defaults to 5.
pub proof fn lemma_search_count_clamped(max_results: Option<u32>)
    ensures
        spec_clamped_results(max_results) <= 50,
        max_results matches Some(n) ==> spec_clamped_results(max_results) == (if n > 50 {
            50u32
        } else {
            n
        }),
        max_results is None ==> spec_clamped_results(max_results) == 5,
{
}

/// A non-2xx resolution response whose body decodes as an upstream
/// error envelope surfaces the envelope's code, message and first
/// reason, not the raw HTTP status line.
pub proof fn lemma_status_failure_carries_envelope(
    e: ApiError,
    status: u16,
    env: ErrorEnvelope,
    body: Seq<char>,
)
    requires
        resolution_error_matches(e, status, Some(env), body),
    ensures
        e matches ApiError::HttpStatusFailure { status: s, message, reason } && s == env.code
            && message == env.message && reason == env.first_reason,
{
}

/// A well-formed 2xx channel response with no items surfaces as
/// `NotFound`, not as a decode failure.
pub proof fn lemma_empty_items_not_found(
    r: StatsStep,
    identifier: Seq<char>,
    limit: u32,
    page: ChannelPage,
)
    requires
        primary_step_ok(r, identifier, limit, Some(page)),
        page.items.len() == 0,
    ensures
        r == (StatsStep::Fail { error: ApiError::NotFound }),
        r != (StatsStep::Fail { error: ApiError::DecodeFailure }),
{
}

/// A channel without an uploads playlist still succeeds: the lookup
/// finishes at once with an empty video list and zero totals.
pub proof fn lemma_no_uploads_playlist(r: StatsStep, ch: ChannelRecord, limit: u32)
    requires
        enrich_step_ok(r, ch, limit),
        ch.uploads_playlist is None,
    ensures
        r matches StatsStep::Done { result } && is_normalized_channel(
            result,
            ch,
            Seq::<VideoRecord>::empty(),
        ) && result.recent_videos.len() == 0 && result.total_recent_views == 0
            && result.total_recent_likes == 0 && result.total_recent_comments == 0,
{
}

} // verus!
