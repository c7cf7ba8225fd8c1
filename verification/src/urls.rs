//! Rendering a planned request as the URL to fetch.
//!
//! Every request goes to the same service root, with the API key as a
//! `key` query parameter; values are embedded as given, with no URL
//! encoding. The batched statistics request joins its video ids with
//! commas.

use vstd::prelude::*;
use vstd::string::{StrSliceExecFns, StringExecFns};

use crate::flow::Request;

verus! {

/// The service root every request URL starts with.
pub open spec fn spec_base_url() -> Seq<char> {
    "https://www.googleapis.com/youtube/v3"@
}

/// The character of one decimal digit.
pub open spec fn digit_char(d: int) -> char {
    ((48 + d) as u8) as char
}

/// The decimal digits of `n`, most significant first.
pub open spec fn dec_digits(n: int) -> Seq<char>
    decreases n,
{
    if n < 10 {
        seq![digit_char(n)]
    } else {
        dec_digits(n / 10).push(digit_char(n % 10))
    }
}

/// The comma-joined video ids of the batched statistics request.
pub open spec fn spec_joined_ids(ids: Seq<String>) -> Seq<char>
    decreases ids.len(),
{
    if ids.len() == 0 {
        Seq::<char>::empty()
    } else if ids.len() == 1 {
        ids[0]@
    } else {
        spec_joined_ids(ids.drop_last()) + ","@ + ids.last()@
    }
}

/// The URL a planned request is fetched from.
pub open spec fn spec_request_url(req: Request, key: Seq<char>) -> Seq<char> {
    match req {
        Request::ChannelById { id } => spec_base_url()
            + "/channels?part=snippet,statistics,contentDetails,brandingSettings&id="@ + id@
            + "&key="@ + key,
        Request::ChannelByUsername { username } => spec_base_url()
            + "/channels?part=snippet,statistics,contentDetails,brandingSettings&forUsername="@
            + username@ + "&key="@ + key,
        Request::HandleSearch { query } => spec_base_url() + "/search?part=snippet&type=channel&q="@
            + query@ + "&key="@ + key,
        Request::VideoSearch { channel_id, max_results } => spec_base_url()
            + "/search?part=id,snippet&channelId="@ + channel_id@ + "&maxResults="@ + dec_digits(
            max_results as int,
        ) + "&order=date&type=video&key="@ + key,
        Request::VideoStats { ids } => spec_base_url() + "/videos?part=statistics,snippet&id="@
            + spec_joined_ids(ids@) + "&key="@ + key,
        Request::ChannelSearch { query, max_results } => spec_base_url()
            + "/search?part=snippet&type=channel&q="@ + query@ + "&maxResults="@ + dec_digits(
            max_results as int,
        ) + "&key="@ + key,
    }
}

fn append_digit(s: &mut String, d: u32)
    requires
        d < 10,
    ensures
        final(s)@ == old(s)@ + seq![digit_char(d as int)],
{
    let lit: &str = match d {
        0 => "0",
        1 => "1",
        2 => "2",
        3 => "3",
        4 => "4",
        5 => "5",
        6 => "6",
        7 => "7",
        8 => "8",
        _ => "9",
    };
    proof {
        reveal_strlit("0");
        reveal_strlit("1");
        reveal_strlit("2");
        reveal_strlit("3");
        reveal_strlit("4");
        reveal_strlit("5");
        reveal_strlit("6");
        reveal_strlit("7");
        reveal_strlit("8");
        reveal_strlit("9");
        assert(lit@ =~= seq![digit_char(d as int)]);
    }
    s.append(lit);
}

/// Appends `n` in decimal, most significant digit first.
fn append_u32(s: &mut String, n: u32)
    ensures
        final(s)@ == old(s)@ + dec_digits(n as int),
    decreases n,
{
    if n >= 10 {
        append_u32(s, n / 10);
        append_digit(s, n % 10);
        proof {
            assert(s@ =~= old(s)@ + dec_digits(n as int));
        }
    } else {
        append_digit(s, n);
    }
}

/// Appends the video ids, comma-separated.
fn append_joined_ids(s: &mut String, ids: &Vec<String>)
    ensures
        final(s)@ == old(s)@ + spec_joined_ids(ids@),
{
    let n = ids.len();
    let mut i: usize = 0;
    while i < n
        invariant
            i <= n,
            n == ids@.len(),
            s@ == old(s)@ + spec_joined_ids(ids@.subrange(0, i as int)),
        decreases n - i,
    {
        if i > 0 {
            s.append(",");
        }
        s.append(ids[i].as_str());
        proof {
            let p = ids@.subrange(0, i as int);
            let q = ids@.subrange(0, i as int + 1);
            assert(q.drop_last() =~= p);
            assert(q.last() == ids@[i as int]);
            assert(s@ =~= old(s)@ + spec_joined_ids(q));
        }
        i = i + 1;
    }
    proof {
        assert(ids@.subrange(0, n as int) =~= ids@);
    }
}

/// Renders a planned request as the URL to fetch, the API key embedded
/// as the `key` parameter.
pub fn request_url(req: &Request, api_key: &str) -> (r: String)
    ensures
        r@ == spec_request_url(*req, api_key@),
{
    let mut s = String::from_str("https://www.googleapis.com/youtube/v3");
    match req {
        Request::ChannelById { id } => {
            s.append("/channels?part=snippet,statistics,contentDetails,brandingSettings&id=");
            s.append(id.as_str());
            s.append("&key=");
            s.append(api_key);
        },
        Request::ChannelByUsername { username } => {
            s.append(
                "/channels?part=snippet,statistics,contentDetails,brandingSettings&forUsername=",
            );
            s.append(username.as_str());
            s.append("&key=");
            s.append(api_key);
        },
        Request::HandleSearch { query } => {
            s.append("/search?part=snippet&type=channel&q=");
            s.append(query.as_str());
            s.append("&key=");
            s.append(api_key);
        },
        Request::VideoSearch { channel_id, max_results } => {
            s.append("/search?part=id,snippet&channelId=");
            s.append(channel_id.as_str());
            s.append("&maxResults=");
            append_u32(&mut s, *max_results);
            s.append("&order=date&type=video&key=");
            s.append(api_key);
        },
        Request::VideoStats { ids } => {
            s.append("/videos?part=statistics,snippet&id=");
            append_joined_ids(&mut s, ids);
            s.append("&key=");
            s.append(api_key);
        },
        Request::ChannelSearch { query, max_results } => {
            s.append("/search?part=snippet&type=channel&q=");
            s.append(query.as_str());
            s.append("&maxResults=");
            append_u32(&mut s, *max_results);
            s.append("&key=");
            s.append(api_key);
        },
    }
    s
}

} // verus!
