//! The two operations, as request/response state machines.
//!
//! A lookup is a chain of blocking HTTP round trips. The library never
//! performs one: `start_channel_stats` plans the first request, the
//! caller performs it and hands the outcome back to
//! `resume_channel_stats`, which either plans the next request, finishes
//! with the unified result, or fails. Channel search is a single round
//! trip: `channel_search_request` plans it and `finish_channel_search`
//! interprets the outcome.
//!
//! Resolution failures propagate; failures anywhere in video enrichment
//! degrade to an empty video list and the lookup still succeeds.

use vstd::prelude::*;

use crate::decode::{
    channel_page_decode_matches, decode_channel_page, decode_error_envelope, decode_video_page,
    envelope_decode_matches, video_page_decode_matches,
};
use crate::ident::{
    classify_identifier, is_handle_shape, is_id_shape, strip_handle_prefix, IdentifierKind,
};
use crate::normalize::{
    clone_string, is_channel_summary, is_normalized_channel, normalize_channel, summarize_page,
};
use crate::records::{
    ApiError, ChannelPage, ChannelRecord, ChannelSummary, ErrorEnvelope,
    NormalizedChannelResult, VideoPage, VideoRecord,
};

verus! {

/// One upstream request, as the caller must issue it.
#[derive(Debug, PartialEq, Eq)]
pub enum Request {
    /// Channel details by canonical id:
    /// `part=snippet,statistics,contentDetails,brandingSettings`.
    ChannelById { id: String },
    /// Channel details by legacy username, same parts.
    ChannelByUsername { username: String },
    /// The channel search a handle lookup starts with (no result cap).
    HandleSearch { query: String },
    /// The most-recent-videos search of the enrichment chain.
    VideoSearch { channel_id: String, max_results: u32 },
    /// The batched statistics request for the found video ids.
    VideoStats { ids: Vec<String> },
    /// The standalone channel search operation, result count clamped.
    ChannelSearch { query: String, max_results: u32 },
}

/// What a performed request came back as: a network-level failure, or a
/// response with its status and raw body.
#[derive(Debug, PartialEq, Eq)]
pub enum FetchOutcome {
    TransportError { detail: String },
    Response { status: u16, body: String },
}

/// Where a channel lookup stands between round trips.
#[derive(Debug, PartialEq, Eq)]
pub enum StatsState {
    /// The first channel request is out: details for an id or username,
    /// or the search a handle starts with.
    AwaitPrimary { identifier: String, limit: u32 },
    /// The second details request of a handle lookup is out.
    AwaitHydrate { limit: u32 },
    /// The recent-videos search is out.
    AwaitVideoSearch { channel: ChannelRecord },
    /// The batched video-statistics request is out.
    AwaitVideoStats { channel: ChannelRecord },
}

/// What a lookup does next: another round trip, the finished result, or
/// a failure.
#[derive(Debug, PartialEq, Eq)]
pub enum StatsStep {
    Next { request: Request, state: StatsState },
    Done { result: NormalizedChannelResult },
    Fail { error: ApiError },
}

/// A 2xx status, as the transport's success test has it.
pub open spec fn spec_is_2xx(status: u16) -> bool {
    200 <= status < 300
}

/// How many videos a lookup fetches when the caller named no count.
pub open spec fn spec_video_limit(video_count: Option<u32>) -> u32 {
    match video_count {
        Some(n) => n,
        None => 10,
    }
}

/// The search result cap: at most 50, default 5.
pub open spec fn spec_clamped_results(max_results: Option<u32>) -> u32 {
    let n = match max_results {
        Some(n) => n,
        None => 5,
    };
    if n > 50 {
        50
    } else {
        n
    }
}

/// The request a lookup starts with, by the identifier's shape: details
/// by id for a `"UC"` prefix, a search for the stripped handle for an
/// `"@"` prefix, details by username otherwise.
pub open spec fn spec_initial_request(req: Request, identifier: Seq<char>) -> bool {
    if is_id_shape(identifier) {
        req matches Request::ChannelById { id } && id@ == identifier
    } else if is_handle_shape(identifier) {
        req matches Request::HandleSearch { query } && query@ == identifier.skip(1)
    } else {
        req matches Request::ChannelByUsername { username } && username@ == identifier
    }
}

/// The failure a non-2xx resolution response becomes: the decoded
/// envelope's code, message and first reason when the body decodes as
/// an upstream error envelope, otherwise the HTTP status and raw body.
pub open spec fn resolution_error_matches(
    e: ApiError,
    status: u16,
    env: Option<ErrorEnvelope>,
    body: Seq<char>,
) -> bool {
    match env {
        Some(env) => e == (ApiError::HttpStatusFailure {
            status: env.code,
            message: env.message,
            reason: env.first_reason,
        }),
        None => {
            &&& e matches ApiError::HttpStatusFailure { status: s, message, reason }
            &&& s == status as u32
            &&& message@ == body
            &&& reason is None
        },
    }
}

/// The step is a network-level failure carrying the transport's detail.
pub open spec fn transport_fail_matches(r: StatsStep, detail: Seq<char>) -> bool {
    &&& r matches StatsStep::Fail { error }
    &&& error matches ApiError::TransportFailure { detail: d }
    &&& d@ == detail
}

/// The step fails as a non-2xx resolution response demands: with the
/// envelope the body actually decodes to (or none, when it does not).
pub open spec fn status_fail_matches(r: StatsStep, status: u16, body: Seq<char>) -> bool {
    &&& r matches StatsStep::Fail { error }
    &&& exists|env: Option<ErrorEnvelope>|
        #[trigger] envelope_decode_matches(env, body) && resolution_error_matches(
            error,
            status,
            env,
            body,
        )
}

/// The step finishes with the channel normalized over an empty page of
/// videos.
pub open spec fn done_empty_matches(r: StatsStep, ch: ChannelRecord) -> bool {
    &&& r matches StatsStep::Done { result }
    &&& is_normalized_channel(result, ch, Seq::<VideoRecord>::empty())
}

/// What follows once a resolved channel is in hand: the recent-videos
/// search when an uploads playlist is present, else the finished result
/// with no videos.
pub open spec fn enrich_step_ok(r: StatsStep, ch: ChannelRecord, limit: u32) -> bool {
    if ch.uploads_playlist is Some {
        &&& r matches StatsStep::Next {
            request: Request::VideoSearch { channel_id, max_results },
            state: StatsState::AwaitVideoSearch { channel },
        }
        &&& channel_id@ == ch.id@
        &&& max_results == limit
        &&& channel == ch
    } else {
        done_empty_matches(r, ch)
    }
}

/// What a 2xx response to the first channel request leads to, given how
/// its body decoded: an undecodable body fails the lookup, an empty
/// item list is `NotFound`, a handle lookup hydrates via the first
/// hit's id, and any other lookup moves on with the first item.
pub open spec fn primary_step_ok(
    r: StatsStep,
    identifier: Seq<char>,
    limit: u32,
    page: Option<ChannelPage>,
) -> bool {
    match page {
        None => r == (StatsStep::Fail { error: ApiError::DecodeFailure }),
        Some(p) => {
            if p.items.len() == 0 {
                r == (StatsStep::Fail { error: ApiError::NotFound })
            } else if is_handle_shape(identifier) {
                &&& r matches StatsStep::Next {
                    request: Request::ChannelById { id },
                    state: StatsState::AwaitHydrate { limit: l },
                }
                &&& id@ == p.items[0].id@
                &&& l == limit
            } else {
                enrich_step_ok(r, p.items[0], limit)
            }
        },
    }
}

/// What a 2xx response to the hydrating details request leads to, given
/// how its body decoded.
pub open spec fn hydrate_step_ok(r: StatsStep, limit: u32, page: Option<ChannelPage>) -> bool {
    match page {
        None => r == (StatsStep::Fail { error: ApiError::DecodeFailure }),
        Some(p) => {
            if p.items.len() == 0 {
                r == (StatsStep::Fail { error: ApiError::NotFound })
            } else {
                enrich_step_ok(r, p.items[0], limit)
            }
        },
    }
}

/// What a 2xx response to the recent-videos search leads to: any decode
/// failure or an empty listing finishes with no videos, otherwise the
/// batched statistics request for exactly the found ids goes out.
pub open spec fn video_search_step_ok(
    r: StatsStep,
    ch: ChannelRecord,
    page: Option<VideoPage>,
) -> bool {
    match page {
        None => done_empty_matches(r, ch),
        Some(p) => {
            if p.items.len() == 0 {
                done_empty_matches(r, ch)
            } else {
                &&& r matches StatsStep::Next {
                    request: Request::VideoStats { ids },
                    state: StatsState::AwaitVideoStats { channel },
                }
                &&& ids@.len() == p.items@.len()
                &&& (forall|i: int|
                    0 <= i < p.items@.len() ==> #[trigger] ids@[i]@ == p.items@[i].video_id@)
                &&& channel == ch
            }
        },
    }
}

/// What a 2xx response to the batched statistics request leads to: its
/// items become the enriched page, an undecodable body degrades to no
/// videos; either way the lookup finishes.
pub open spec fn video_stats_step_ok(
    r: StatsStep,
    ch: ChannelRecord,
    page: Option<VideoPage>,
) -> bool {
    match page {
        None => done_empty_matches(r, ch),
        Some(p) => {
            &&& r matches StatsStep::Done { result }
            &&& is_normalized_channel(result, ch, p.items@)
        },
    }
}

fn is_2xx(status: u16) -> (r: bool)
    ensures
        r == spec_is_2xx(status),
{
    200 <= status && status < 300
}

/// Plans the first round trip of a channel lookup and the state to
/// resume with once its outcome is known.
pub fn start_channel_stats(identifier: String, video_count: Option<u32>) -> (r: (
    Request,
    StatsState,
))
    ensures
        spec_initial_request(r.0, identifier@),
        r.1 matches StatsState::AwaitPrimary { identifier: stored, limit } && stored@
            == identifier@ && limit == spec_video_limit(video_count),
{
    let limit: u32 = match video_count {
        Some(n) => n,
        None => 10,
    };
    let request = match classify_identifier(identifier.as_str()) {
        IdentifierKind::Id => Request::ChannelById { id: clone_string(&identifier) },
        IdentifierKind::Handle => Request::HandleSearch {
            query: strip_handle_prefix(identifier.as_str()),
        },
        IdentifierKind::Username => Request::ChannelByUsername {
            username: clone_string(&identifier),
        },
    };
    (request, StatsState::AwaitPrimary { identifier, limit })
}

/// The failure a non-2xx resolution response surfaces as, from the
/// status, the body, and the body's decode as an error envelope.
pub fn resolution_failure(status: u16, env: Option<ErrorEnvelope>, body: String) -> (e: ApiError)
    ensures
        resolution_error_matches(e, status, env, body@),
{
    match env {
        Some(env) => ApiError::HttpStatusFailure {
            status: env.code,
            message: env.message,
            reason: env.first_reason,
        },
        None => ApiError::HttpStatusFailure { status: status as u32, message: body, reason: None },
    }
}

/// Finishes a lookup over an empty page of videos.
fn finish_with_empty(ch: ChannelRecord) -> (r: StatsStep)
    ensures
        done_empty_matches(r, ch),
{
    let empty: Vec<VideoRecord> = Vec::new();
    let result = normalize_channel(&ch, &empty);
    StatsStep::Done { result }
}

/// Moves on from a resolved channel: plans the recent-videos search
/// when an uploads playlist is present, else finishes with no videos.
pub fn continue_with_channel(ch: ChannelRecord, limit: u32) -> (r: StatsStep)
    ensures
        enrich_step_ok(r, ch, limit),
{
    if ch.uploads_playlist.is_some() {
        let channel_id = clone_string(&ch.id);
        StatsStep::Next {
            request: Request::VideoSearch { channel_id, max_results: limit },
            state: StatsState::AwaitVideoSearch { channel: ch },
        }
    } else {
        finish_with_empty(ch)
    }
}

/// Interprets the decoded body of a 2xx response to the first channel
/// request.
pub fn step_after_primary(identifier: &str, limit: u32, page: Option<ChannelPage>) -> (r:
    StatsStep)
    ensures
        primary_step_ok(r, identifier@, limit, page),
{
    match page {
        None => StatsStep::Fail { error: ApiError::DecodeFailure },
        Some(mut p) => {
            if p.items.len() == 0 {
                StatsStep::Fail { error: ApiError::NotFound }
            } else {
                let first = p.items.remove(0);
                match classify_identifier(identifier) {
                    IdentifierKind::Handle => StatsStep::Next {
                        request: Request::ChannelById { id: first.id },
                        state: StatsState::AwaitHydrate { limit },
                    },
                    _ => continue_with_channel(first, limit),
                }
            }
        },
    }
}

/// Interprets the decoded body of a 2xx response to the hydrating
/// details request of a handle lookup.
pub fn step_after_hydrate(limit: u32, page: Option<ChannelPage>) -> (r: StatsStep)
    ensures
        hydrate_step_ok(r, limit, page),
{
    match page {
        None => StatsStep::Fail { error: ApiError::DecodeFailure },
        Some(mut p) => {
            if p.items.len() == 0 {
                StatsStep::Fail { error: ApiError::NotFound }
            } else {
                let first = p.items.remove(0);
                continue_with_channel(first, limit)
            }
        },
    }
}

/// Interprets the decoded body of a 2xx response to the recent-videos
/// search.
pub fn step_after_video_search(ch: ChannelRecord, page: Option<VideoPage>) -> (r: StatsStep)
    ensures
        video_search_step_ok(r, ch, page),
{
    match page {
        None => finish_with_empty(ch),
        Some(p) => {
            if p.items.len() == 0 {
                finish_with_empty(ch)
            } else {
                let mut ids: Vec<String> = Vec::new();
                let n = p.items.len();
                let mut i: usize = 0;
                while i < n
                    invariant
                        i <= n,
                        n == p.items@.len(),
                        ids@.len() == i,
                        forall|j: int|
                            0 <= j < i ==> #[trigger] ids@[j]@ == p.items@[j].video_id@,
                    decreases n - i,
                {
                    ids.push(clone_string(&p.items[i].video_id));
                    i = i + 1;
                }
                StatsStep::Next {
                    request: Request::VideoStats { ids },
                    state: StatsState::AwaitVideoStats { channel: ch },
                }
            }
        },
    }
}

/// Interprets the decoded body of a 2xx response to the batched
/// statistics request.
pub fn step_after_video_stats(ch: ChannelRecord, page: Option<VideoPage>) -> (r: StatsStep)
    ensures
        video_stats_step_ok(r, ch, page),
{
    match page {
        None => finish_with_empty(ch),
        Some(p) => {
            let result = normalize_channel(&ch, &p.items);
            StatsStep::Done { result }
        },
    }
}

/// Carries a channel lookup one round trip further: interprets the
/// outcome the caller fetched and plans what follows.
///
/// In the resolution states a transport failure, a non-2xx status and
/// an undecodable body fail the lookup; in the enrichment states every
/// failure degrades to a finished result with no videos.
pub fn resume_channel_stats(state: StatsState, outcome: FetchOutcome) -> (r: StatsStep)
    ensures
        (match state {
            StatsState::AwaitPrimary { identifier, limit } => match outcome {
                FetchOutcome::TransportError { detail } => transport_fail_matches(r, detail@),
                FetchOutcome::Response { status, body } => if !spec_is_2xx(status) {
                    status_fail_matches(r, status, body@)
                } else {
                    exists|page: Option<ChannelPage>|
                        #[trigger] channel_page_decode_matches(page, body@) && primary_step_ok(
                            r,
                            identifier@,
                            limit,
                            page,
                        )
                },
            },
            StatsState::AwaitHydrate { limit } => match outcome {
                FetchOutcome::TransportError { detail } => transport_fail_matches(r, detail@),
                FetchOutcome::Response { status, body } => if !spec_is_2xx(status) {
                    status_fail_matches(r, status, body@)
                } else {
                    exists|page: Option<ChannelPage>|
                        #[trigger] channel_page_decode_matches(page, body@) && hydrate_step_ok(
                            r,
                            limit,
                            page,
                        )
                },
            },
            StatsState::AwaitVideoSearch { channel } => match outcome {
                FetchOutcome::TransportError { .. } => done_empty_matches(r, channel),
                FetchOutcome::Response { status, body } => if !spec_is_2xx(status) {
                    done_empty_matches(r, channel)
                } else {
                    exists|page: Option<VideoPage>|
                        #[trigger] video_page_decode_matches(page, body@) && video_search_step_ok(
                            r,
                            channel,
                            page,
                        )
                },
            },
            StatsState::AwaitVideoStats { channel } => match outcome {
                FetchOutcome::TransportError { .. } => done_empty_matches(r, channel),
                FetchOutcome::Response { status, body } => if !spec_is_2xx(status) {
                    done_empty_matches(r, channel)
                } else {
                    exists|page: Option<VideoPage>|
                        #[trigger] video_page_decode_matches(page, body@) && video_stats_step_ok(
                            r,
                            channel,
                            page,
                        )
                },
            },
        }),
{
    match state {
        StatsState::AwaitPrimary { identifier, limit } => match outcome {
            FetchOutcome::TransportError { detail } => StatsStep::Fail {
                error: ApiError::TransportFailure { detail },
            },
            FetchOutcome::Response { status, body } => {
                if !is_2xx(status) {
                    let env = decode_error_envelope(body.as_str());
                    let ghost env_g = env;
                    let ghost body_g = body@;
                    let error = resolution_failure(status, env, body);
                    proof {
                        assert(envelope_decode_matches(env_g, body_g));
                        assert(resolution_error_matches(error, status, env_g, body_g));
                    }
                    StatsStep::Fail { error }
                } else {
                    let ghost body_g = body@;
                    let page = decode_channel_page(body.as_str());
                    let ghost page_g = page;
                    let r = step_after_primary(identifier.as_str(), limit, page);
                    proof {
                        assert(channel_page_decode_matches(page_g, body_g));
                        assert(primary_step_ok(r, identifier@, limit, page_g));
                    }
                    r
                }
            },
        },
        StatsState::AwaitHydrate { limit } => match outcome {
            FetchOutcome::TransportError { detail } => StatsStep::Fail {
                error: ApiError::TransportFailure { detail },
            },
            FetchOutcome::Response { status, body } => {
                if !is_2xx(status) {
                    let env = decode_error_envelope(body.as_str());
                    let ghost env_g = env;
                    let ghost body_g = body@;
                    let error = resolution_failure(status, env, body);
                    proof {
                        assert(envelope_decode_matches(env_g, body_g));
                        assert(resolution_error_matches(error, status, env_g, body_g));
                    }
                    StatsStep::Fail { error }
                } else {
                    let ghost body_g = body@;
                    let page = decode_channel_page(body.as_str());
                    let ghost page_g = page;
                    let r = step_after_hydrate(limit, page);
                    proof {
                        assert(channel_page_decode_matches(page_g, body_g));
                        assert(hydrate_step_ok(r, limit, page_g));
                    }
                    r
                }
            },
        },
        StatsState::AwaitVideoSearch { channel } => match outcome {
            FetchOutcome::TransportError { .. } => finish_with_empty(channel),
            FetchOutcome::Response { status, body } => {
                if !is_2xx(status) {
                    finish_with_empty(channel)
                } else {
                    let ghost body_g = body@;
                    let page = decode_video_page(body.as_str());
                    let ghost page_g = page;
                    let ghost channel_g = channel;
                    let r = step_after_video_search(channel, page);
                    proof {
                        assert(video_page_decode_matches(page_g, body_g));
                        assert(video_search_step_ok(r, channel_g, page_g));
                    }
                    r
                }
            },
        },
        StatsState::AwaitVideoStats { channel } => match outcome {
            FetchOutcome::TransportError { .. } => finish_with_empty(channel),
            FetchOutcome::Response { status, body } => {
                if !is_2xx(status) {
                    finish_with_empty(channel)
                } else {
                    let ghost body_g = body@;
                    let page = decode_video_page(body.as_str());
                    let ghost page_g = page;
                    let ghost channel_g = channel;
                    let r = step_after_video_stats(channel, page);
                    proof {
                        assert(video_page_decode_matches(page_g, body_g));
                        assert(video_stats_step_ok(r, channel_g, page_g));
                    }
                    r
                }
            },
        },
    }
}

/// Plans the one request of a channel search, the requested result
/// count defaulted to 5 and clamped to 50 before anything goes
/// upstream.
pub fn channel_search_request(query: String, max_results: Option<u32>) -> (r: Request)
    ensures
        r matches Request::ChannelSearch { query: q, max_results: m } && q == query && m
            == spec_clamped_results(max_results),
{
    let n: u32 = match max_results {
        Some(n) => n,
        None => 5,
    };
    let clamped: u32 = if n > 50 {
        50
    } else {
        n
    };
    Request::ChannelSearch { query, max_results: clamped }
}

/// The search results a decode of a 2xx search body yields: every hit
/// mapped to its summary; an undecodable body is a decode failure. An
/// empty hit list is an empty result, not an error.
pub open spec fn search_result_ok(
    r: Result<Vec<ChannelSummary>, ApiError>,
    page: Option<ChannelPage>,
) -> bool {
    match page {
        None => r == Result::<Vec<ChannelSummary>, ApiError>::Err(ApiError::DecodeFailure),
        Some(p) => {
            &&& r matches Ok(list)
            &&& list@.len() == p.items@.len()
            &&& (forall|i: int|
                0 <= i < p.items@.len() ==> is_channel_summary(#[trigger] list@[i], p.items@[i]))
        },
    }
}

/// Interprets the outcome of a channel search. A non-2xx response
/// surfaces the HTTP status and raw body; unlike resolution, no error
/// envelope is decoded here, an asymmetry kept deliberately.
pub fn finish_channel_search(outcome: FetchOutcome) -> (r: Result<Vec<ChannelSummary>, ApiError>)
    ensures
        (match outcome {
            FetchOutcome::TransportError { detail } => {
                &&& r matches Err(e)
                &&& e matches ApiError::TransportFailure { detail: d }
                &&& d@ == detail@
            },
            FetchOutcome::Response { status, body } => if !spec_is_2xx(status) {
                &&& r matches Err(e)
                &&& e matches ApiError::HttpStatusFailure { status: s, message, reason }
                &&& s == status as u32
                &&& message@ == body@
                &&& reason is None
            } else {
                exists|page: Option<ChannelPage>|
                    #[trigger] channel_page_decode_matches(page, body@) && search_result_ok(
                        r,
                        page,
                    )
            },
        }),
{
    match outcome {
        FetchOutcome::TransportError { detail } => Err(ApiError::TransportFailure { detail }),
        FetchOutcome::Response { status, body } => {
            if !is_2xx(status) {
                Err(
                    ApiError::HttpStatusFailure {
                        status: status as u32,
                        message: body,
                        reason: None,
                    },
                )
            } else {
                let ghost body_g = body@;
                match decode_channel_page(body.as_str()) {
                    None => {
                        let r = Err(ApiError::DecodeFailure);
                        proof {
                            assert(channel_page_decode_matches(
                                Option::<ChannelPage>::None,
                                body_g,
                            ));
                            assert(search_result_ok(r, Option::<ChannelPage>::None));
                        }
                        r
                    },
                    Some(p) => {
                        let list = summarize_page(&p);
                        let r = Ok(list);
                        proof {
                            assert(channel_page_decode_matches(Some(p), body_g));
                            assert(search_result_ok(r, Some(p)));
                        }
                        r
                    },
                }
            }
        },
    }
}

} // verus!
