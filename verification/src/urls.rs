//! Building the URLs that the crawl fetches: the two candidate endpoints for
//! resolving an identifier, the continuation ("browse") endpoint, and the
//! public watch URL derived from a video id.

use vstd::prelude::*;

verus! {

/// The watch URL that a video id maps to.
pub open spec fn spec_video_url(id: Seq<char>) -> Seq<char> {
    "https://www.youtube.com/watch?v="@ + id
}

/// The uploads listing endpoint that addresses the identifier as a channel id.
pub open spec fn spec_channel_videos_url(channel: Seq<char>) -> Seq<char> {
    "https://www.youtube.com/channel/"@ + channel + "/videos?view=0&flow=grid&pbj=1&sort=dd"@
}

/// The uploads listing endpoint that addresses the identifier as a username.
pub open spec fn spec_user_videos_url(user: Seq<char>) -> Seq<char> {
    "https://www.youtube.com/user/"@ + user + "/videos?view=0&flow=grid&pbj=1&sort=dd"@
}

pub fn make_youtube_video_url(id: &str) -> (url: String)
    ensures
        url@ == spec_video_url(id@),
{
    let prefix = String::from_str("https://www.youtube.com/watch?v=");
    prefix.concat(id)
}

pub fn channel_videos_url(channel: &str) -> (url: String)
    ensures
        url@ == spec_channel_videos_url(channel@),
{
    let mut url = String::from_str("https://www.youtube.com/channel/");
    url.append(channel);
    url.append("/videos?view=0&flow=grid&pbj=1&sort=dd");
    url
}

pub fn user_videos_url(user: &str) -> (url: String)
    ensures
        url@ == spec_user_videos_url(user@),
{
    let mut url = String::from_str("https://www.youtube.com/user/");
    url.append(user);
    url.append("/videos?view=0&flow=grid&pbj=1&sort=dd");
    url
}

/// The percent-encoding of `s`. Named only: urlencoding computes it, and the
/// result is a function of the input alone.
pub uninterp spec fn url_encoded(s: Seq<char>) -> Seq<char>;

/// Relies on urlencoding::encode: percent-encodes every byte except
/// alphanumerics and `-`, `_`, `.`, `~`, from the input alone.
#[verifier::external_body]
fn encode_component(s: &str) -> (r: String)
    ensures
        r@ == url_encoded(s@),
{
    urlencoding::encode(s).into_owned()
}

/// The continuation endpoint, with both opaque token fields percent-encoded
/// into its query string.
pub open spec fn spec_browse_url(continuation: Seq<char>, tracking: Seq<char>) -> Seq<char> {
    "https://www.youtube.com/browse_ajax?ctoken="@ + url_encoded(continuation) + "&itct="@
        + url_encoded(tracking)
}

pub fn browse_url(ctoken: &str, itct: &str) -> (url: String)
    ensures
        url@ == spec_browse_url(ctoken@, itct@),
{
    let mut url = String::from_str("https://www.youtube.com/browse_ajax?ctoken=");
    let ec = encode_component(ctoken);
    url.append(ec.as_str());
    url.append("&itct=");
    let et = encode_component(itct);
    url.append(et.as_str());
    url
}

/// A URL that the platform serves relative to its own origin is made absolute;
/// any other URL is returned unchanged.
pub open spec fn spec_canonical_video_url(url: Seq<char>) -> Seq<char> {
    if url.len() > 0 && url[0] == '/' {
        "https://www.youtube.com"@ + url
    } else {
        url
    }
}

pub fn canonicalize_video_url(url: &str) -> (res: String)
    ensures
        res@ == spec_canonical_video_url(url@),
{
    if url.unicode_len() > 0 && url.get_char(0) == '/' {
        let prefix = String::from_str("https://www.youtube.com");
        prefix.concat(url)
    } else {
        String::from_str(url)
    }
}

} // verus!
