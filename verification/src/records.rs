//! The data model: decoded API records, the unified output shape, and
//! the failure taxonomy.
//!
//! Records hold counts exactly as the API delivers them — as optional
//! decimal strings — and are read-only once decoded; the normalizer
//! coerces them to integers.

use vstd::prelude::*;

verus! {

/// The thumbnail URLs a snippet carries: only the size variants that
/// were present in the response.
#[derive(Debug, PartialEq, Eq)]
pub struct ThumbnailSet {
    pub default: Option<String>,
    pub medium: Option<String>,
    pub high: Option<String>,
}

/// One channel as a channel-details response delivers it, counts still
/// string-encoded.
#[derive(Debug, PartialEq, Eq)]
pub struct ChannelRecord {
    pub id: String,
    pub title: String,
    pub description: String,
    pub custom_url: Option<String>,
    pub published_at: String,
    pub country: Option<String>,
    pub thumbnails: ThumbnailSet,
    pub view_count: Option<String>,
    pub subscriber_count: Option<String>,
    pub hidden_subscriber_count: bool,
    pub video_count: Option<String>,
    /// The uploads playlist id from `contentDetails.relatedPlaylists`,
    /// absent when either level is missing.
    pub uploads_playlist: Option<String>,
    /// The channel keywords from `brandingSettings.channel`, absent when
    /// either level is missing.
    pub keywords: Option<String>,
}

/// A well-formed channel-details or channel-search response body: its
/// list of channels.
#[derive(Debug, PartialEq, Eq)]
pub struct ChannelPage {
    pub items: Vec<ChannelRecord>,
}

/// Per-video counts, each optional and string-encoded.
#[derive(Debug, PartialEq, Eq)]
pub struct VideoStatsRecord {
    pub view_count: Option<String>,
    pub like_count: Option<String>,
    pub comment_count: Option<String>,
}

/// One video as a video listing delivers it.
#[derive(Debug, PartialEq, Eq)]
pub struct VideoRecord {
    pub video_id: String,
    pub title: String,
    pub description: Option<String>,
    pub published_at: String,
    pub stats: Option<VideoStatsRecord>,
}

/// A well-formed video listing body: its videos.
#[derive(Debug, PartialEq, Eq)]
pub struct VideoPage {
    pub items: Vec<VideoRecord>,
}

/// The decoded upstream error envelope of a non-2xx response:
/// `error.code`, `error.message`, and the first error's `reason`.
#[derive(Debug, PartialEq, Eq)]
pub struct ErrorEnvelope {
    pub code: u32,
    pub message: String,
    pub first_reason: Option<String>,
}

/// Why an operation failed. Enough context travels along to word a
/// single human-readable message; nothing is retried.
#[derive(Debug, PartialEq, Eq)]
pub enum ApiError {
    /// The request never completed at the network level.
    TransportFailure { detail: String },
    /// A non-2xx response: the upstream envelope's code and message when
    /// the body decoded as one, otherwise the HTTP status and raw body.
    HttpStatusFailure { status: u32, message: String, reason: Option<String> },
    /// A 2xx response whose body does not match the expected schema.
    DecodeFailure,
    /// A well-formed response with an empty item list where one entity
    /// was expected.
    NotFound,
}

/// One hit of a channel search, mapped to its summary shape.
#[derive(Debug, PartialEq, Eq)]
pub struct ChannelSummary {
    pub channel_id: String,
    pub title: String,
    pub description: String,
    pub channel_url: String,
    pub custom_url: Option<String>,
}

/// One normalized video entry: counts coerced, watch URL derived.
#[derive(Debug, PartialEq, Eq)]
pub struct NormalizedVideo {
    pub video_id: String,
    pub title: String,
    pub published_at: String,
    pub description: Option<String>,
    /// Each count is present exactly when its raw field was present;
    /// a present-but-unparsable string surfaces as 0.
    pub view_count: Option<u64>,
    pub like_count: Option<u64>,
    pub comment_count: Option<u64>,
    pub video_url: String,
}

/// The unified output: channel fields with counts coerced to integers,
/// the thumbnail mapping, the normalized recent videos, and page totals
/// summed over exactly the fetched videos (not channel-lifetime totals).
#[derive(Debug, PartialEq, Eq)]
pub struct NormalizedChannelResult {
    pub channel_id: String,
    pub channel_title: String,
    pub channel_description: String,
    pub published_at: String,
    pub custom_url: Option<String>,
    pub country: Option<String>,
    /// `None` when the owner hides the count or the field was absent;
    /// never 0 on a hidden count.
    pub subscriber_count: Option<u64>,
    /// Set exactly when the owner hides the count.
    pub subscriber_count_hidden: bool,
    /// 0 when the raw field was absent or unparsable.
    pub total_view_count: u64,
    /// 0 when the raw field was absent or unparsable.
    pub video_count: u32,
    pub thumbnails: ThumbnailSet,
    pub channel_keywords: Option<String>,
    pub recent_videos: Vec<NormalizedVideo>,
    /// Page totals over the fetched videos only, saturating at
    /// `u64::MAX`.
    pub total_recent_views: u64,
    pub total_recent_likes: u64,
    pub total_recent_comments: u64,
    pub channel_url: String,
}

} // verus!
