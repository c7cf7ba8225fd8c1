//! Decoding of response bodies into records.
//!
//! Each decoder parses a body with `serde_json` and walks the value
//! tree, requiring exactly the fields the schema requires: a missing or
//! wrongly-typed required field fails the whole decode, an optional
//! field may be absent or `null`. Each decoder is specified exactly:
//! its result equals a spec-level decode of the body's named JSON model
//! (`json_model_of`), for every body.

use vstd::prelude::*;

use crate::jsonval::{
    json_as_array, json_as_bool, json_as_str, json_as_u64, json_get, json_is_null,
    json_is_object, json_parse, json_model_of, value_model, JsonModel,
};
use crate::records::{
    ChannelPage, ChannelRecord, ErrorEnvelope, ThumbnailSet, VideoPage, VideoRecord,
    VideoStatsRecord,
};

verus! {

/// The value of a key of an object model; `None` on a missing key or a
/// non-object.
pub open spec fn model_get(m: JsonModel, key: Seq<char>) -> Option<JsonModel> {
    match m {
        JsonModel::Obj(fields) => if fields.dom().contains(key) {
            Some(fields[key])
        } else {
            None
        },
        _ => None,
    }
}

/// A required string field: present and a JSON string.
pub open spec fn spec_req_string(m: JsonModel, key: Seq<char>) -> Option<Seq<char>> {
    match model_get(m, key) {
        Some(JsonModel::Str(s)) => Some(s),
        _ => None,
    }
}

/// An optional string field: absent or `null` is `Some(None)`, a string
/// is `Some(Some(..))`, anything else fails the decode (`None`).
pub open spec fn spec_opt_string(m: JsonModel, key: Seq<char>) -> Option<Option<Seq<char>>> {
    match model_get(m, key) {
        None => Some(None),
        Some(f) => if f is Null {
            Some(None)
        } else {
            match f {
                JsonModel::Str(s) => Some(Some(s)),
                _ => None,
            }
        },
    }
}

/// A required boolean field.
pub open spec fn spec_req_bool(m: JsonModel, key: Seq<char>) -> Option<bool> {
    match model_get(m, key) {
        Some(JsonModel::Bool(b)) => Some(b),
        _ => None,
    }
}

/// A required number field that must fit a `u32`.
pub open spec fn spec_req_u32(m: JsonModel, key: Seq<char>) -> Option<u32> {
    match model_get(m, key) {
        Some(JsonModel::UIntNum(n)) => if n <= u32::MAX as u64 {
            Some(n as u32)
        } else {
            None
        },
        _ => None,
    }
}

/// One optional thumbnail size: when present (and not `null`) it must
/// carry a string `url`.
pub open spec fn spec_thumb_url(thumbs: JsonModel, key: Seq<char>) -> Option<Option<Seq<char>>> {
    match model_get(thumbs, key) {
        None => Some(None),
        Some(t) => if t is Null {
            Some(None)
        } else {
            match model_get(t, "url"@) {
                Some(JsonModel::Str(u)) => Some(Some(u)),
                _ => None,
            }
        },
    }
}

/// The decoded thumbnails of a snippet model.
pub struct ThumbsModel {
    pub default: Option<Seq<char>>,
    pub medium: Option<Seq<char>>,
    pub high: Option<Seq<char>>,
}

/// The thumbnails object of a snippet: required and an object, with
/// each size optional.
pub open spec fn spec_decode_thumbs(sn: JsonModel) -> Option<ThumbsModel> {
    match model_get(sn, "thumbnails"@) {
        Some(t) => if !(t is Obj) {
            None
        } else {
            match (spec_thumb_url(t, "default"@), spec_thumb_url(t, "medium"@), spec_thumb_url(
                t,
                "high"@,
            )) {
                (Some(default), Some(medium), Some(high)) => Some(
                    ThumbsModel { default, medium, high },
                ),
                _ => None,
            }
        },
        None => None,
    }
}

/// The uploads playlist id behind `contentDetails.relatedPlaylists`:
/// both levels optional, `relatedPlaylists` required inside a present
/// `contentDetails`.
pub open spec fn spec_uploads_of(m: JsonModel) -> Option<Option<Seq<char>>> {
    match model_get(m, "contentDetails"@) {
        None => Some(None),
        Some(cd) => if cd is Null {
            Some(None)
        } else {
            match model_get(cd, "relatedPlaylists"@) {
                Some(rp) => spec_opt_string(rp, "uploads"@),
                None => None,
            }
        },
    }
}

/// The channel keywords behind `brandingSettings.channel`: every level
/// optional, each present level an object.
pub open spec fn spec_keywords_of(m: JsonModel) -> Option<Option<Seq<char>>> {
    match model_get(m, "brandingSettings"@) {
        None => Some(None),
        Some(bs) => if bs is Null {
            Some(None)
        } else if !(bs is Obj) {
            None
        } else {
            match model_get(bs, "channel"@) {
                None => Some(None),
                Some(cb) => if cb is Null {
                    Some(None)
                } else if !(cb is Obj) {
                    None
                } else {
                    spec_opt_string(cb, "keywords"@)
                },
            }
        },
    }
}

/// The decoded fields of one channel item.
pub struct ChannelModel {
    pub id: Seq<char>,
    pub title: Seq<char>,
    pub description: Seq<char>,
    pub custom_url: Option<Seq<char>>,
    pub published_at: Seq<char>,
    pub country: Option<Seq<char>>,
    pub thumbnails: ThumbsModel,
    pub view_count: Option<Seq<char>>,
    pub subscriber_count: Option<Seq<char>>,
    pub hidden_subscriber_count: bool,
    pub video_count: Option<Seq<char>>,
    pub uploads_playlist: Option<Seq<char>>,
    pub keywords: Option<Seq<char>>,
}

/// What one channel item decodes to, if it decodes.
pub open spec fn spec_decode_channel(m: JsonModel) -> Option<ChannelModel> {
    match (spec_req_string(m, "id"@), model_get(m, "snippet"@), model_get(m, "statistics"@)) {
        (Some(id), Some(sn), Some(st)) => match (
            spec_req_string(sn, "title"@),
            spec_req_string(sn, "description"@),
            spec_opt_string(sn, "customUrl"@),
            spec_req_string(sn, "publishedAt"@),
            spec_opt_string(sn, "country"@),
            spec_decode_thumbs(sn),
        ) {
            (
                Some(title),
                Some(description),
                Some(custom_url),
                Some(published_at),
                Some(country),
                Some(thumbnails),
            ) => match (
                spec_opt_string(st, "viewCount"@),
                spec_opt_string(st, "subscriberCount"@),
                spec_req_bool(st, "hiddenSubscriberCount"@),
                spec_opt_string(st, "videoCount"@),
                spec_uploads_of(m),
                spec_keywords_of(m),
            ) {
                (
                    Some(view_count),
                    Some(subscriber_count),
                    Some(hidden_subscriber_count),
                    Some(video_count),
                    Some(uploads_playlist),
                    Some(keywords),
                ) => Some(
                    ChannelModel {
                        id,
                        title,
                        description,
                        custom_url,
                        published_at,
                        country,
                        thumbnails,
                        view_count,
                        subscriber_count,
                        hidden_subscriber_count,
                        video_count,
                        uploads_playlist,
                        keywords,
                    },
                ),
                _ => None,
            },
            _ => None,
        },
        _ => None,
    }
}

/// The channel items in order, failing if any item fails.
pub open spec fn spec_decode_channel_items(s: Seq<JsonModel>) -> Option<Seq<ChannelModel>>
    decreases s.len(),
{
    if s.len() == 0 {
        Some(Seq::<ChannelModel>::empty())
    } else {
        match spec_decode_channel_items(s.drop_last()) {
            Some(ms) => match spec_decode_channel(s.last()) {
                Some(cm) => Some(ms.push(cm)),
                None => None,
            },
            None => None,
        }
    }
}

/// The optional `pageInfo` object: when present (and not `null`) its
/// two counts must be numbers within `u32`.
pub open spec fn spec_page_info_ok(m: JsonModel) -> bool {
    match model_get(m, "pageInfo"@) {
        None => true,
        Some(pi) => pi is Null || (spec_req_u32(pi, "totalResults"@) is Some && spec_req_u32(
            pi,
            "resultsPerPage"@,
        ) is Some),
    }
}

/// The page fields beside `items`: `pageInfo` and `nextPageToken` must
/// be well-typed where present.
pub open spec fn spec_page_extras_ok(m: JsonModel) -> bool {
    spec_page_info_ok(m) && spec_opt_string(m, "nextPageToken"@) is Some
}

/// What a channel-details or channel-search body decodes to: its items,
/// if the body parses and matches the schema.
pub open spec fn spec_decode_channel_page(om: Option<JsonModel>) -> Option<Seq<ChannelModel>> {
    match om {
        Some(m) => match model_get(m, "items"@) {
            Some(JsonModel::Arr(s)) => if spec_page_extras_ok(m) {
                spec_decode_channel_items(s)
            } else {
                None
            },
            _ => None,
        },
        None => None,
    }
}

/// An optional owned string agrees with an optional model string.
pub open spec fn opt_str_matches(o: Option<String>, m: Option<Seq<char>>) -> bool {
    match (o, m) {
        (Some(s), Some(t)) => s@ == t,
        (None, None) => true,
        _ => false,
    }
}

pub open spec fn thumbs_match(t: ThumbnailSet, tm: ThumbsModel) -> bool {
    &&& opt_str_matches(t.default, tm.default)
    &&& opt_str_matches(t.medium, tm.medium)
    &&& opt_str_matches(t.high, tm.high)
}

/// The record carries exactly the decoded channel fields.
pub open spec fn channel_matches(r: ChannelRecord, cm: ChannelModel) -> bool {
    &&& r.id@ == cm.id
    &&& r.title@ == cm.title
    &&& r.description@ == cm.description
    &&& opt_str_matches(r.custom_url, cm.custom_url)
    &&& r.published_at@ == cm.published_at
    &&& opt_str_matches(r.country, cm.country)
    &&& thumbs_match(r.thumbnails, cm.thumbnails)
    &&& opt_str_matches(r.view_count, cm.view_count)
    &&& opt_str_matches(r.subscriber_count, cm.subscriber_count)
    &&& r.hidden_subscriber_count == cm.hidden_subscriber_count
    &&& opt_str_matches(r.video_count, cm.video_count)
    &&& opt_str_matches(r.uploads_playlist, cm.uploads_playlist)
    &&& opt_str_matches(r.keywords, cm.keywords)
}

/// `r` is exactly what decoding `body` as a channel page yields:
/// `None` exactly when the body does not match the schema, else the
/// decoded items.
pub open spec fn channel_page_decode_matches(r: Option<ChannelPage>, body: Seq<char>) -> bool {
    match spec_decode_channel_page(json_model_of(body)) {
        Some(models) => {
            &&& r matches Some(p)
            &&& p.items@.len() == models.len()
            &&& (forall|i: int|
                0 <= i < models.len() ==> channel_matches(#[trigger] p.items@[i], models[i]))
        },
        None => r is None,
    }
}

/// A required string field of a value.
fn req_string_field(v: &serde_json::Value, key: &str) -> (r: Result<String, ()>)
    ensures
        (match r {
            Ok(s) => spec_req_string(value_model(*v), key@) == Some(s@),
            Err(()) => spec_req_string(value_model(*v), key@) is None,
        }),
{
    match json_get(v, key) {
        Some(f) => match json_as_str(f) {
            Some(s) => Ok(s.to_owned()),
            None => Err(()),
        },
        None => Err(()),
    }
}

/// An optional string field of a value.
fn opt_string_field(v: &serde_json::Value, key: &str) -> (r: Result<Option<String>, ()>)
    ensures
        (match r {
            Ok(o) => {
                &&& spec_opt_string(value_model(*v), key@) matches Some(om)
                &&& opt_str_matches(o, om)
            },
            Err(()) => spec_opt_string(value_model(*v), key@) is None,
        }),
{
    match json_get(v, key) {
        Some(f) => {
            if json_is_null(f) {
                Ok(None)
            } else {
                match json_as_str(f) {
                    Some(s) => Ok(Some(s.to_owned())),
                    None => Err(()),
                }
            }
        },
        None => Ok(None),
    }
}

/// A required boolean field of a value.
fn req_bool_field(v: &serde_json::Value, key: &str) -> (r: Result<bool, ()>)
    ensures
        (match r {
            Ok(b) => spec_req_bool(value_model(*v), key@) == Some(b),
            Err(()) => spec_req_bool(value_model(*v), key@) is None,
        }),
{
    match json_get(v, key) {
        Some(f) => match json_as_bool(f) {
            Some(b) => Ok(b),
            None => Err(()),
        },
        None => Err(()),
    }
}

/// A required number field of a value that must fit a `u32`.
fn req_u32_field(v: &serde_json::Value, key: &str) -> (r: Result<u32, ()>)
    ensures
        (match r {
            Ok(n) => spec_req_u32(value_model(*v), key@) == Some(n),
            Err(()) => spec_req_u32(value_model(*v), key@) is None,
        }),
{
    match json_get(v, key) {
        Some(f) => match json_as_u64(f) {
            Some(n) => {
                if n <= u32::MAX as u64 {
                    Ok(n as u32)
                } else {
                    Err(())
                }
            },
            None => Err(()),
        },
        None => Err(()),
    }
}

/// One optional thumbnail size of a thumbnails value.
fn thumb_url(thumbs: &serde_json::Value, key: &str) -> (r: Result<Option<String>, ()>)
    ensures
        (match r {
            Ok(o) => {
                &&& spec_thumb_url(value_model(*thumbs), key@) matches Some(om)
                &&& opt_str_matches(o, om)
            },
            Err(()) => spec_thumb_url(value_model(*thumbs), key@) is None,
        }),
{
    match json_get(thumbs, key) {
        Some(t) => {
            if json_is_null(t) {
                Ok(None)
            } else {
                match json_get(t, "url") {
                    Some(u) => match json_as_str(u) {
                        Some(s) => Ok(Some(s.to_owned())),
                        None => Err(()),
                    },
                    None => Err(()),
                }
            }
        },
        None => Ok(None),
    }
}

/// The thumbnails of a snippet value.
fn decode_thumbnails(snippet: &serde_json::Value) -> (r: Result<ThumbnailSet, ()>)
    ensures
        (match r {
            Ok(t) => {
                &&& spec_decode_thumbs(value_model(*snippet)) matches Some(tm)
                &&& thumbs_match(t, tm)
            },
            Err(()) => spec_decode_thumbs(value_model(*snippet)) is None,
        }),
{
    let thumbs = match json_get(snippet, "thumbnails") {
        Some(t) => t,
        None => {
            return Err(());
        },
    };
    if !json_is_object(thumbs) {
        return Err(());
    }
    let default = thumb_url(thumbs, "default")?;
    let medium = thumb_url(thumbs, "medium")?;
    let high = thumb_url(thumbs, "high")?;
    Ok(ThumbnailSet { default, medium, high })
}

/// One channel item of a channel-details or channel-search response.
fn decode_channel(v: &serde_json::Value) -> (r: Result<ChannelRecord, ()>)
    ensures
        (match r {
            Ok(ch) => {
                &&& spec_decode_channel(value_model(*v)) matches Some(cm)
                &&& channel_matches(ch, cm)
            },
            Err(()) => spec_decode_channel(value_model(*v)) is None,
        }),
{
    let id = req_string_field(v, "id")?;
    let snippet = match json_get(v, "snippet") {
        Some(s) => s,
        None => {
            return Err(());
        },
    };
    let title = req_string_field(snippet, "title")?;
    let description = req_string_field(snippet, "description")?;
    let custom_url = opt_string_field(snippet, "customUrl")?;
    let published_at = req_string_field(snippet, "publishedAt")?;
    let country = opt_string_field(snippet, "country")?;
    let thumbnails = decode_thumbnails(snippet)?;
    let stats = match json_get(v, "statistics") {
        Some(s) => s,
        None => {
            return Err(());
        },
    };
    let view_count = opt_string_field(stats, "viewCount")?;
    let subscriber_count = opt_string_field(stats, "subscriberCount")?;
    let hidden_subscriber_count = req_bool_field(stats, "hiddenSubscriberCount")?;
    let video_count = opt_string_field(stats, "videoCount")?;
    let uploads_playlist = match json_get(v, "contentDetails") {
        Some(cd) => {
            if json_is_null(cd) {
                None
            } else {
                match json_get(cd, "relatedPlaylists") {
                    Some(rp) => opt_string_field(rp, "uploads")?,
                    None => {
                        return Err(());
                    },
                }
            }
        },
        None => None,
    };
    let keywords = match json_get(v, "brandingSettings") {
        Some(bs) => {
            if json_is_null(bs) {
                None
            } else if !json_is_object(bs) {
                return Err(());
            } else {
                match json_get(bs, "channel") {
                    Some(cb) => {
                        if json_is_null(cb) {
                            None
                        } else if !json_is_object(cb) {
                            return Err(());
                        } else {
                            opt_string_field(cb, "keywords")?
                        }
                    },
                    None => None,
                }
            }
        },
        None => None,
    };
    Ok(ChannelRecord {
        id,
        title,
        description,
        custom_url,
        published_at,
        country,
        thumbnails,
        view_count,
        subscriber_count,
        hidden_subscriber_count,
        video_count,
        uploads_playlist,
        keywords,
    })
}

/// A failed prefix fails the whole item list.
proof fn lemma_channel_items_failure_sticks(s: Seq<JsonModel>, j: int)
    requires
        0 <= j <= s.len(),
        spec_decode_channel_items(s.subrange(0, j)) is None,
    ensures
        spec_decode_channel_items(s) is None,
    decreases s.len() - j,
{
    if j < s.len() {
        let p = s.subrange(0, j);
        let q = s.subrange(0, j + 1);
        assert(q.drop_last() =~= p);
        lemma_channel_items_failure_sticks(s, j + 1);
    } else {
        assert(s.subrange(0, j) =~= s);
    }
}

/// The optional `pageInfo` object of a page value.
fn check_page_info(v: &serde_json::Value) -> (r: Result<(), ()>)
    ensures
        r is Ok <==> spec_page_info_ok(value_model(*v)),
{
    match json_get(v, "pageInfo") {
        Some(pi) => {
            if json_is_null(pi) {
                Ok(())
            } else {
                let _total = req_u32_field(pi, "totalResults")?;
                let _per_page = req_u32_field(pi, "resultsPerPage")?;
                Ok(())
            }
        },
        None => Ok(()),
    }
}

/// A channel-details or channel-search response body: a required
/// `items` array of channels. Returns exactly what the spec-level
/// decode of the body yields.
#[verifier::loop_isolation(false)]
pub fn decode_channel_page(body: &str) -> (r: Option<ChannelPage>)
    ensures
        channel_page_decode_matches(r, body@),
{
    let v = match json_parse(body) {
        Some(v) => v,
        None => {
            return None;
        },
    };
    let items_v = match json_get(&v, "items") {
        Some(items) => items,
        None => {
            return None;
        },
    };
    let arr = match json_as_array(items_v) {
        Some(arr) => arr,
        None => {
            return None;
        },
    };
    let ghost elems: Seq<JsonModel> = (match value_model(*items_v) {
        JsonModel::Arr(s) => s,
        _ => Seq::<JsonModel>::empty(),
    });
    let mut out: Vec<ChannelRecord> = Vec::new();
    let n = arr.len();
    let mut i: usize = 0;
    while i < n
        invariant
            i <= n,
            n == arr@.len(),
            n == elems.len(),
            forall|j: int| 0 <= j < n ==> value_model(#[trigger] arr@[j]) == elems[j],
            spec_decode_channel_items(elems.subrange(0, i as int)) matches Some(ms)
                && out@.len() == ms.len() && (forall|j: int|
                0 <= j < ms.len() ==> channel_matches(#[trigger] out@[j], ms[j])),
        decreases n - i,
    {
        let ghost p = elems.subrange(0, i as int);
        let ghost q = elems.subrange(0, i as int + 1);
        proof {
            assert(q.drop_last() =~= p);
            assert(q.last() == elems[i as int]);
        }
        match decode_channel(&arr[i]) {
            Ok(ch) => out.push(ch),
            Err(()) => {
                proof {
                    lemma_channel_items_failure_sticks(elems, i as int + 1);
                }
                return None;
            },
        }
        i = i + 1;
    }
    proof {
        assert(elems.subrange(0, n as int) =~= elems);
    }
    if check_page_info(&v).is_err() {
        return None;
    }
    if opt_string_field(&v, "nextPageToken").is_err() {
        return None;
    }
    Some(ChannelPage { items: out })
}

/// The decoded fields of one video's statistics block.
pub struct VideoStatsModel {
    pub view_count: Option<Seq<char>>,
    pub like_count: Option<Seq<char>>,
    pub comment_count: Option<Seq<char>>,
}

/// The decoded fields of one video item.
pub struct VideoModel {
    pub video_id: Seq<char>,
    pub title: Seq<char>,
    pub description: Option<Seq<char>>,
    pub published_at: Seq<char>,
    pub stats: Option<VideoStatsModel>,
}

/// A video's id: the search listing nests it as `id.videoId`, the
/// batched statistics response carries it as a plain string.
pub open spec fn spec_video_id_of(m: JsonModel) -> Option<Seq<char>> {
    match model_get(m, "id"@) {
        Some(JsonModel::Str(s)) => Some(s),
        Some(idv) => spec_req_string(idv, "videoId"@),
        None => None,
    }
}

/// A video's optional statistics block: when present (and not `null`)
/// it must be an object of optional string counts.
pub open spec fn spec_video_stats_of(m: JsonModel) -> Option<Option<VideoStatsModel>> {
    match model_get(m, "statistics"@) {
        None => Some(None),
        Some(st) => if st is Null {
            Some(None)
        } else if !(st is Obj) {
            None
        } else {
            match (spec_opt_string(st, "viewCount"@), spec_opt_string(st, "likeCount"@),
            spec_opt_string(st, "commentCount"@)) {
                (Some(view_count), Some(like_count), Some(comment_count)) => Some(
                    Some(VideoStatsModel { view_count, like_count, comment_count }),
                ),
                _ => None,
            }
        },
    }
}

/// What one video item decodes to, if it decodes.
pub open spec fn spec_decode_video(m: JsonModel) -> Option<VideoModel> {
    match (spec_video_id_of(m), model_get(m, "snippet"@)) {
        (Some(video_id), Some(sn)) => match (
            spec_req_string(sn, "title"@),
            spec_opt_string(sn, "description"@),
            spec_req_string(sn, "publishedAt"@),
            spec_decode_thumbs(sn),
            spec_video_stats_of(m),
        ) {
            (Some(title), Some(description), Some(published_at), Some(_thumbs), Some(stats)) => Some(
                VideoModel { video_id, title, description, published_at, stats },
            ),
            _ => None,
        },
        _ => None,
    }
}

/// The video items in order, failing if any item fails.
pub open spec fn spec_decode_video_items(s: Seq<JsonModel>) -> Option<Seq<VideoModel>>
    decreases s.len(),
{
    if s.len() == 0 {
        Some(Seq::<VideoModel>::empty())
    } else {
        match spec_decode_video_items(s.drop_last()) {
            Some(ms) => match spec_decode_video(s.last()) {
                Some(vm) => Some(ms.push(vm)),
                None => None,
            },
            None => None,
        }
    }
}

/// What a video listing body decodes to: its items, if the body parses
/// and matches the schema.
pub open spec fn spec_decode_video_page(om: Option<JsonModel>) -> Option<Seq<VideoModel>> {
    match om {
        Some(m) => match model_get(m, "items"@) {
            Some(JsonModel::Arr(s)) => if spec_opt_string(m, "nextPageToken"@) is Some {
                spec_decode_video_items(s)
            } else {
                None
            },
            _ => None,
        },
        None => None,
    }
}

pub open spec fn video_stats_match(r: Option<VideoStatsRecord>, m: Option<VideoStatsModel>) -> bool {
    match (r, m) {
        (Some(rs), Some(ms)) => {
            &&& opt_str_matches(rs.view_count, ms.view_count)
            &&& opt_str_matches(rs.like_count, ms.like_count)
            &&& opt_str_matches(rs.comment_count, ms.comment_count)
        },
        (None, None) => true,
        _ => false,
    }
}

/// The record carries exactly the decoded video fields.
pub open spec fn video_matches(r: VideoRecord, vm: VideoModel) -> bool {
    &&& r.video_id@ == vm.video_id
    &&& r.title@ == vm.title
    &&& opt_str_matches(r.description, vm.description)
    &&& r.published_at@ == vm.published_at
    &&& video_stats_match(r.stats, vm.stats)
}

/// `r` is exactly what decoding `body` as a video listing yields.
pub open spec fn video_page_decode_matches(r: Option<VideoPage>, body: Seq<char>) -> bool {
    match spec_decode_video_page(json_model_of(body)) {
        Some(models) => {
            &&& r matches Some(p)
            &&& p.items@.len() == models.len()
            &&& (forall|i: int|
                0 <= i < models.len() ==> video_matches(#[trigger] p.items@[i], models[i]))
        },
        None => r is None,
    }
}

/// One video item: its id in either shape, a required snippet, and an
/// optional statistics block.
fn decode_video(v: &serde_json::Value) -> (r: Result<VideoRecord, ()>)
    ensures
        (match r {
            Ok(video) => {
                &&& spec_decode_video(value_model(*v)) matches Some(vm)
                &&& video_matches(video, vm)
            },
            Err(()) => spec_decode_video(value_model(*v)) is None,
        }),
{
    let id_v = match json_get(v, "id") {
        Some(o) => o,
        None => {
            return Err(());
        },
    };
    let video_id = match json_as_str(id_v) {
        Some(s) => s.to_owned(),
        None => req_string_field(id_v, "videoId")?,
    };
    let snippet = match json_get(v, "snippet") {
        Some(s) => s,
        None => {
            return Err(());
        },
    };
    let title = req_string_field(snippet, "title")?;
    let description = opt_string_field(snippet, "description")?;
    let published_at = req_string_field(snippet, "publishedAt")?;
    let _thumbnails = decode_thumbnails(snippet)?;
    let stats = match json_get(v, "statistics") {
        Some(s) => {
            if json_is_null(s) {
                None
            } else if !json_is_object(s) {
                return Err(());
            } else {
                let view_count = opt_string_field(s, "viewCount")?;
                let like_count = opt_string_field(s, "likeCount")?;
                let comment_count = opt_string_field(s, "commentCount")?;
                Some(VideoStatsRecord { view_count, like_count, comment_count })
            }
        },
        None => None,
    };
    Ok(VideoRecord { video_id, title, description, published_at, stats })
}

/// A failed prefix fails the whole item list.
proof fn lemma_video_items_failure_sticks(s: Seq<JsonModel>, j: int)
    requires
        0 <= j <= s.len(),
        spec_decode_video_items(s.subrange(0, j)) is None,
    ensures
        spec_decode_video_items(s) is None,
    decreases s.len() - j,
{
    if j < s.len() {
        let p = s.subrange(0, j);
        let q = s.subrange(0, j + 1);
        assert(q.drop_last() =~= p);
        lemma_video_items_failure_sticks(s, j + 1);
    } else {
        assert(s.subrange(0, j) =~= s);
    }
}

/// A video listing body: a required `items` array of videos. Returns
/// exactly what the spec-level decode of the body yields.
#[verifier::loop_isolation(false)]
pub fn decode_video_page(body: &str) -> (r: Option<VideoPage>)
    ensures
        video_page_decode_matches(r, body@),
{
    let v = match json_parse(body) {
        Some(v) => v,
        None => {
            return None;
        },
    };
    let items_v = match json_get(&v, "items") {
        Some(items) => items,
        None => {
            return None;
        },
    };
    let arr = match json_as_array(items_v) {
        Some(arr) => arr,
        None => {
            return None;
        },
    };
    let ghost elems: Seq<JsonModel> = (match value_model(*items_v) {
        JsonModel::Arr(s) => s,
        _ => Seq::<JsonModel>::empty(),
    });
    let mut out: Vec<VideoRecord> = Vec::new();
    let n = arr.len();
    let mut i: usize = 0;
    while i < n
        invariant
            i <= n,
            n == arr@.len(),
            n == elems.len(),
            forall|j: int| 0 <= j < n ==> value_model(#[trigger] arr@[j]) == elems[j],
            spec_decode_video_items(elems.subrange(0, i as int)) matches Some(ms) && out@.len()
                == ms.len() && (forall|j: int|
                0 <= j < ms.len() ==> video_matches(#[trigger] out@[j], ms[j])),
        decreases n - i,
    {
        let ghost p = elems.subrange(0, i as int);
        let ghost q = elems.subrange(0, i as int + 1);
        proof {
            assert(q.drop_last() =~= p);
            assert(q.last() == elems[i as int]);
        }
        match decode_video(&arr[i]) {
            Ok(video) => out.push(video),
            Err(()) => {
                proof {
                    lemma_video_items_failure_sticks(elems, i as int + 1);
                }
                return None;
            },
        }
        i = i + 1;
    }
    proof {
        assert(elems.subrange(0, n as int) =~= elems);
    }
    if opt_string_field(&v, "nextPageToken").is_err() {
        return None;
    }
    Some(VideoPage { items: out })
}

/// One error detail: required `message`, `domain` and `reason` strings.
pub open spec fn spec_detail_ok(d: JsonModel) -> bool {
    &&& spec_req_string(d, "message"@) is Some
    &&& spec_req_string(d, "domain"@) is Some
    &&& spec_req_string(d, "reason"@) is Some
}

pub open spec fn spec_details_ok(s: Seq<JsonModel>) -> bool {
    forall|i: int| 0 <= i < s.len() ==> spec_detail_ok(#[trigger] s[i])
}

/// The first detail's reason, absent when the list is empty.
pub open spec fn spec_first_reason(s: Seq<JsonModel>) -> Option<Seq<char>> {
    if s.len() == 0 {
        None
    } else {
        spec_req_string(s[0], "reason"@)
    }
}

/// The decoded fields of an upstream error envelope.
pub struct EnvelopeModel {
    pub code: u32,
    pub message: Seq<char>,
    pub first_reason: Option<Seq<char>>,
}

/// What a non-2xx body decodes to as an error envelope, if it does.
pub open spec fn spec_decode_envelope(om: Option<JsonModel>) -> Option<EnvelopeModel> {
    match om {
        Some(m) => match model_get(m, "error"@) {
            Some(e) => match (spec_req_u32(e, "code"@), spec_req_string(e, "message"@), model_get(
                e,
                "errors"@,
            )) {
                (Some(code), Some(message), Some(JsonModel::Arr(s))) => if spec_details_ok(s) {
                    Some(EnvelopeModel { code, message, first_reason: spec_first_reason(s) })
                } else {
                    None
                },
                _ => None,
            },
            None => None,
        },
        None => None,
    }
}

/// `r` is exactly what decoding `body` as an error envelope yields.
pub open spec fn envelope_decode_matches(r: Option<ErrorEnvelope>, body: Seq<char>) -> bool {
    match spec_decode_envelope(json_model_of(body)) {
        Some(em) => {
            &&& r matches Some(e)
            &&& e.code == em.code
            &&& e.message@ == em.message
            &&& opt_str_matches(e.first_reason, em.first_reason)
        },
        None => r is None,
    }
}

/// The upstream error envelope of a non-2xx body:
/// `{error: {code, message, errors: [{message, domain, reason}, ..]}}`.
/// Returns exactly what the spec-level decode of the body yields.
#[verifier::loop_isolation(false)]
pub fn decode_error_envelope(body: &str) -> (r: Option<ErrorEnvelope>)
    ensures
        envelope_decode_matches(r, body@),
{
    let v = match json_parse(body) {
        Some(v) => v,
        None => {
            return None;
        },
    };
    let err = match json_get(&v, "error") {
        Some(e) => e,
        None => {
            return None;
        },
    };
    let code = match req_u32_field(err, "code") {
        Ok(c) => c,
        Err(()) => {
            return None;
        },
    };
    let message = match req_string_field(err, "message") {
        Ok(m) => m,
        Err(()) => {
            return None;
        },
    };
    let errors_v = match json_get(err, "errors") {
        Some(e) => e,
        None => {
            return None;
        },
    };
    let arr = match json_as_array(errors_v) {
        Some(arr) => arr,
        None => {
            return None;
        },
    };
    let ghost elems: Seq<JsonModel> = (match value_model(*errors_v) {
        JsonModel::Arr(s) => s,
        _ => Seq::<JsonModel>::empty(),
    });
    let mut first_reason: Option<String> = None;
    let n = arr.len();
    let mut i: usize = 0;
    while i < n
        invariant
            i <= n,
            n == arr@.len(),
            n == elems.len(),
            forall|j: int| 0 <= j < n ==> value_model(#[trigger] arr@[j]) == elems[j],
            forall|j: int| 0 <= j < i ==> spec_detail_ok(#[trigger] elems[j]),
            i == 0 ==> first_reason is None,
            i > 0 ==> opt_str_matches(first_reason, spec_first_reason(elems)),
        decreases n - i,
    {
        let detail = &arr[i];
        let _msg = match req_string_field(detail, "message") {
            Ok(m) => m,
            Err(()) => {
                proof {
                    assert(!spec_detail_ok(elems[i as int]));
                }
                return None;
            },
        };
        let _domain = match req_string_field(detail, "domain") {
            Ok(d) => d,
            Err(()) => {
                proof {
                    assert(!spec_detail_ok(elems[i as int]));
                }
                return None;
            },
        };
        let reason = match req_string_field(detail, "reason") {
            Ok(r) => r,
            Err(()) => {
                proof {
                    assert(!spec_detail_ok(elems[i as int]));
                }
                return None;
            },
        };
        if i == 0 {
            first_reason = Some(reason);
        }
        i = i + 1;
    }
    Some(ErrorEnvelope { code, message, first_reason })
}

} // verus!
