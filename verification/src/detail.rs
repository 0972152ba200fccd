//! The one-shot detail lookups: a channel's title, description and avatar,
//! and a video's title, description, duration and publish date.
//!
//! These share no state with the crawler: each is a single request followed by
//! a decode. The request URLs and every decoding decision are made here; the
//! fetch itself is the caller's. The video lookup reads the `player_response`
//! chunk out of a form-encoded response body, percent-decodes it, and decodes
//! the fields of the resulting JSON document.

use vstd::prelude::*;

use crate::json::{
    element_of, member_of, spec_element_of, spec_member, spec_member_of, spec_opt, spec_str_of,
    str_of, JsonValue,
};
use crate::text::{spec_starts_with, str_starts_with};

verus! {

/// A channel's displayed detail.
#[derive(Debug)]
pub struct ChannelDetail {
    pub title: String,
    pub author_thumbnail: String,
    pub description: String,
}

/// The abstract value of a [`ChannelDetail`].
pub struct ChannelDetailView {
    pub title: Seq<char>,
    pub author_thumbnail: Seq<char>,
    pub description: Seq<char>,
}

impl View for ChannelDetail {
    type V = ChannelDetailView;

    open spec fn view(&self) -> ChannelDetailView {
        ChannelDetailView {
            title: self.title@,
            author_thumbnail: self.author_thumbnail@,
            description: self.description@,
        }
    }
}

/// A video's displayed detail.
#[derive(Debug)]
pub struct VideoDetail {
    pub title: String,
    pub description: String,
    pub duration_seconds: i32,
    pub publish_date: String,
}

/// The abstract value of a [`VideoDetail`].
pub struct VideoDetailView {
    pub title: Seq<char>,
    pub description: Seq<char>,
    pub duration_seconds: i32,
    pub publish_date: Seq<char>,
}

impl View for VideoDetail {
    type V = VideoDetailView;

    open spec fn view(&self) -> VideoDetailView {
        VideoDetailView {
            title: self.title@,
            description: self.description@,
            duration_seconds: self.duration_seconds,
            publish_date: self.publish_date@,
        }
    }
}

/// Looks up a channel's detail by its identifier.
#[derive(Debug)]
pub struct YtChannelDetailScraper {
    id: String,
}

/// Looks up a video's detail by its identifier.
#[derive(Debug)]
pub struct YtVideoDetailScraper {
    id: String,
}

impl View for YtChannelDetailScraper {
    type V = Seq<char>;

    closed spec fn view(&self) -> Seq<char> {
        self.id@
    }
}

impl View for YtVideoDetailScraper {
    type V = Seq<char>;

    closed spec fn view(&self) -> Seq<char> {
        self.id@
    }
}

/// The about-page endpoint that addresses the identifier as a channel id.
pub open spec fn spec_channel_about_url(id: Seq<char>) -> Seq<char> {
    "https://youtube.com/channel/"@ + id + "/about?flow=grid&view=0&pbj=1"@
}

/// The about-page endpoint that addresses the identifier as a username.
pub open spec fn spec_user_about_url(id: Seq<char>) -> Seq<char> {
    "https://youtube.com/user/"@ + id + "/about?flow=grid&view=0&pbj=1"@
}

/// The endpoint a video's form-encoded info is fetched from.
pub open spec fn spec_video_info_url(id: Seq<char>) -> Seq<char> {
    "https://www.youtube.com/get_video_info?video_id="@ + id
}

impl YtChannelDetailScraper {
    pub fn from_id(id: &str) -> (r: YtChannelDetailScraper)
        ensures
            r@ == id@,
    {
        YtChannelDetailScraper { id: String::from_str(id) }
    }

    /// The first candidate URL for the about page.
    pub fn channel_about_url(&self) -> (url: String)
        ensures
            url@ == spec_channel_about_url(self@),
    {
        let mut url = String::from_str("https://youtube.com/channel/");
        url.append(self.id.as_str());
        url.append("/about?flow=grid&view=0&pbj=1");
        url
    }

    /// The second candidate URL for the about page.
    pub fn user_about_url(&self) -> (url: String)
        ensures
            url@ == spec_user_about_url(self@),
    {
        let mut url = String::from_str("https://youtube.com/user/");
        url.append(self.id.as_str());
        url.append("/about?flow=grid&view=0&pbj=1");
        url
    }
}

impl YtVideoDetailScraper {
    pub fn from_id(id: &str) -> (r: YtVideoDetailScraper)
        ensures
            r@ == id@,
    {
        YtVideoDetailScraper { id: String::from_str(id) }
    }

    /// The URL the video's info is fetched from.
    pub fn video_info_url(&self) -> (url: String)
        ensures
            url@ == spec_video_info_url(self@),
    {
        let mut url = String::from_str("https://www.youtube.com/get_video_info?video_id=");
        url.append(self.id.as_str());
        url
    }
}

/// The channel detail a parsed about-page document carries, when the
/// metadata section holds all three fields.
pub open spec fn spec_channel_detail_of(doc: JsonValue) -> Option<ChannelDetailView> {
    let meta = spec_member_of(
        spec_member_of(
            spec_member_of(spec_element_of(Some(doc), 1), "response"@),
            "metadata"@,
        ),
        "channelMetadataRenderer"@,
    );
    match spec_str_of(spec_member_of(meta, "title"@)) {
        Some(title) => match spec_str_of(spec_member_of(meta, "description"@)) {
            Some(description) => match spec_str_of(
                spec_member_of(
                    spec_element_of(
                        spec_member_of(spec_member_of(meta, "avatar"@), "thumbnails"@),
                        0,
                    ),
                    "url"@,
                ),
            ) {
                Some(thumb) => Some(
                    ChannelDetailView {
                        title: title,
                        author_thumbnail: thumb,
                        description: description,
                    },
                ),
                None => None,
            },
            None => None,
        },
        None => None,
    }
}

/// Reads a channel's detail out of a parsed about-page document.
pub fn extract_channel_detail(doc: &JsonValue) -> (r: Option<ChannelDetail>)
    ensures
        match r {
            Some(d) => spec_channel_detail_of(*doc) == Some(d@),
            None => spec_channel_detail_of(*doc) is None,
        },
{
    let meta = member_of(
        member_of(member_of(doc.element(1), "response"), "metadata"),
        "channelMetadataRenderer",
    );
    match str_of(member_of(meta, "title")) {
        Some(title) => match str_of(member_of(meta, "description")) {
            Some(description) => match str_of(member_of(
                element_of(member_of(member_of(meta, "avatar"), "thumbnails"), 0),
                "url",
            )) {
                Some(thumb) => Some(
                    ChannelDetail {
                        title: title.clone(),
                        author_thumbnail: thumb.clone(),
                        description: description.clone(),
                    },
                ),
                None => None,
            },
            None => None,
        },
        None => None,
    }
}

/// The index of the first `&` at or after `i`, or the end of the text.
pub open spec fn spec_chunk_end(s: Seq<char>, i: int) -> int
    decreases s.len() - i
        when 0 <= i <= s.len()
{
    if i >= s.len() {
        i
    } else if s[i] == '&' {
        i
    } else {
        spec_chunk_end(s, i + 1)
    }
}

/// The value of the first form-encoded `player_response` chunk at or after
/// position `i`: the text between the key's `=` and the next `&`, looked for
/// only where a chunk starts.
pub open spec fn spec_player_response_from(s: Seq<char>, i: int) -> Option<Seq<char>>
    decreases s.len() - i
        when 0 <= i <= s.len()
{
    if i >= s.len() {
        None
    } else if (i == 0 || s[i - 1] == '&') && spec_starts_with(s.skip(i), "player_response="@) {
        Some(s.subrange(i + "player_response="@.len(), spec_chunk_end(s, i + "player_response="@.len())))
    } else {
        spec_player_response_from(s, i + 1)
    }
}

/// The value of the first `player_response` chunk of a form-encoded body.
pub open spec fn spec_player_response(s: Seq<char>) -> Option<Seq<char>> {
    spec_player_response_from(s, 0)
}

/// Finds the `player_response` chunk of a form-encoded body.
pub fn find_player_response(text: &str) -> (r: Option<String>)
    ensures
        match r {
            Some(p) => spec_player_response(text@) == Some(p@),
            None => spec_player_response(text@) is None,
        },
{
    let n = text.unicode_len();
    proof {
        reveal_strlit("player_response=");
    }
    let mut i: usize = 0;
    while i < n
        invariant
            i <= n,
            n == text@.len(),
            spec_player_response(text@) == spec_player_response_from(text@, i as int),
        decreases n - i,
    {
        let is_start = i == 0 || text.get_char(i - 1) == '&';
        let mut matched = false;
        if is_start {
            let tail = text.substring_char(i, n);
            proof {
                assert(tail@ =~= text@.skip(i as int));
            }
            if str_starts_with(tail, "player_response=") {
                matched = true;
            }
        }
        if matched {
            proof {
                reveal_strlit("player_response=");
                assert("player_response="@.len() == 16);
            }
            let mut j = i + 16;
            while j < n && text.get_char(j) != '&'
                invariant
                    i + 16 <= j <= n,
                    n == text@.len(),
                    spec_chunk_end(text@, i as int + 16) == spec_chunk_end(text@, j as int),
                decreases n - j,
            {
                j += 1;
            }
            proof {
                assert(spec_chunk_end(text@, j as int) == j);
            }
            let value = text.substring_char(i + 16, j);
            return Some(String::from_str(value));
        }
        i += 1;
    }
    None
}

/// What percent-decoding yields for `s`, when the decoded bytes are valid
/// text. Named only: urlencoding computes it, and the result is a function of
/// the input alone.
pub uninterp spec fn url_decoded(s: Seq<char>) -> Option<Seq<char>>;

/// Relies on urlencoding::decode: percent-decoding assuming UTF-8, a function
/// of the input alone; it fails only when the decoded bytes are not valid
/// UTF-8.
#[verifier::external_body]
fn decode_component(s: &str) -> (r: Option<String>)
    ensures
        match r {
            Some(d) => url_decoded(s@) == Some(d@),
            None => url_decoded(s@) is None,
        },
{
    match urlencoding::decode(s) {
        Ok(c) => Some(c.into_owned()),
        Err(_) => None,
    }
}

/// Every `+` replaced by a space, as the form encoding of the info body asks.
pub open spec fn spec_plus_to_space(s: Seq<char>) -> Seq<char> {
    s.map_values(|c: char| if c == '+' { ' ' } else { c })
}

fn plus_to_space(s: &str) -> (r: String)
    ensures
        r@ == spec_plus_to_space(s@),
{
    let n = s.unicode_len();
    let mut out = String::new();
    let mut i: usize = 0;
    proof {
        assert(out@ =~= spec_plus_to_space(s@).take(0));
    }
    while i < n
        invariant
            i <= n,
            n == s@.len(),
            out@ == spec_plus_to_space(s@).take(i as int),
        decreases n - i,
    {
        let c = s.get_char(i);
        if c == '+' {
            out.append(" ");
            proof {
                reveal_strlit(" ");
            }
        } else {
            let piece = s.substring_char(i, i + 1);
            out.append(piece);
        }
        proof {
            assert(out@ =~= spec_plus_to_space(s@).take(i as int + 1));
        }
        i += 1;
    }
    proof {
        assert(spec_plus_to_space(s@).take(n as int) =~= spec_plus_to_space(s@));
    }
    out
}

/// The ready-to-parse JSON text inside a video info body: the
/// `player_response` chunk, percent-decoded, with `+` read as space.
pub open spec fn spec_player_json(text: Seq<char>) -> Option<Seq<char>> {
    match spec_player_response(text) {
        Some(raw) => match url_decoded(raw) {
            Some(d) => Some(spec_plus_to_space(d)),
            None => None,
        },
        None => None,
    }
}

/// Carves the `player_response` JSON text out of a video info body.
pub fn player_response_json(text: &str) -> (r: Option<String>)
    ensures
        match r {
            Some(p) => spec_player_json(text@) == Some(p@),
            None => spec_player_json(text@) is None,
        },
{
    match find_player_response(text) {
        Some(raw) => match decode_component(raw.as_str()) {
            Some(d) => Some(plus_to_space(d.as_str())),
            None => None,
        },
        None => None,
    }
}

/// A decimal digit.
pub open spec fn spec_is_digit(c: char) -> bool {
    48 <= c as u32 <= 57
}

/// All characters are decimal digits.
pub open spec fn spec_all_digits(s: Seq<char>) -> bool {
    forall|i: int| 0 <= i < s.len() ==> spec_is_digit(#[trigger] s[i])
}

/// The number the digits spell.
pub open spec fn spec_digits_val(s: Seq<char>) -> int
    decreases s.len(),
{
    if s.len() == 0 {
        0
    } else {
        spec_digits_val(s.drop_last()) * 10 + (s.last() as u32 - 48)
    }
}

/// The duration a decimal text spells: defined exactly for non-empty
/// all-digit text whose value fits.
pub open spec fn spec_parse_seconds(s: Seq<char>) -> Option<i32> {
    if s.len() == 0 || !spec_all_digits(s) {
        None
    } else if spec_digits_val(s) > 2147483647 {
        None
    } else {
        Some(spec_digits_val(s) as i32)
    }
}

proof fn lemma_digits_val_nonneg(s: Seq<char>)
    requires
        spec_all_digits(s),
    ensures
        0 <= spec_digits_val(s),
    decreases s.len(),
{
    if s.len() > 0 {
        assert forall|i: int| 0 <= i < s.drop_last().len() implies spec_is_digit(
            #[trigger] s.drop_last()[i],
        ) by {
            assert(s.drop_last()[i] == s[i]);
        }
        lemma_digits_val_nonneg(s.drop_last());
        assert(spec_is_digit(s.last()));
    }
}

proof fn lemma_digits_val_prefix(s: Seq<char>, k: int)
    requires
        spec_all_digits(s),
        0 <= k <= s.len(),
    ensures
        spec_digits_val(s.take(k)) <= spec_digits_val(s),
    decreases s.len() - k,
{
    if k == s.len() {
        assert(s.take(k) =~= s);
    } else {
        assert(s.take(k + 1).drop_last() =~= s.take(k));
        assert(s.take(k + 1).last() == s[k]);
        assert forall|i: int| 0 <= i < s.take(k).len() implies spec_is_digit(
            #[trigger] s.take(k)[i],
        ) by {
            assert(s.take(k)[i] == s[i]);
        }
        lemma_digits_val_nonneg(s.take(k));
        assert(spec_is_digit(s[k]));
        assert(spec_digits_val(s.take(k + 1)) == spec_digits_val(s.take(k)) * 10 + (s[k] as u32
            - 48));
        lemma_digits_val_prefix(s, k + 1);
    }
}

/// Reads a duration in seconds from its decimal text.
pub fn parse_seconds(s: &str) -> (r: Option<i32>)
    ensures
        r == spec_parse_seconds(s@),
{
    let n = s.unicode_len();
    if n == 0 {
        return None;
    }
    let mut acc: u64 = 0;
    let mut i: usize = 0;
    proof {
        assert(s@.take(0) =~= Seq::<char>::empty());
    }
    while i < n
        invariant
            i <= n,
            n == s@.len(),
            spec_all_digits(s@.take(i as int)),
            acc == spec_digits_val(s@.take(i as int)),
            acc <= 2147483647,
        decreases n - i,
    {
        let c = s.get_char(i);
        let cu = c as u32;
        if cu < 48 || cu > 57 {
            proof {
                assert(!spec_is_digit(s@[i as int]));
            }
            return None;
        }
        let d = (cu - 48) as u64;
        let next = acc * 10 + d;
        proof {
            assert(s@.take(i as int + 1).drop_last() =~= s@.take(i as int));
            assert(s@.take(i as int + 1).last() == s@[i as int]);
            assert forall|j: int| 0 <= j < s@.take(i as int + 1).len() implies spec_is_digit(
                #[trigger] s@.take(i as int + 1)[j],
            ) by {
                assert(s@.take(i as int + 1)[j] == s@[j]);
            }
            assert(spec_digits_val(s@.take(i as int + 1)) == next);
        }
        if next > 2147483647 {
            proof {
                if spec_all_digits(s@) {
                    lemma_digits_val_prefix(s@, i as int + 1);
                }
            }
            return None;
        }
        acc = next;
        i += 1;
    }
    proof {
        assert(s@.take(n as int) =~= s@);
    }
    Some(acc as i32)
}

/// The video detail a player-response document carries: defined when all four
/// fields are present, each percent-decodes, and the duration fits.
pub open spec fn spec_video_detail_of(doc: JsonValue) -> Option<VideoDetailView> {
    let vd = spec_member(doc, "videoDetails"@);
    let title = spec_str_of(spec_member_of(vd, "title"@));
    let descr = spec_str_of(spec_member_of(vd, "shortDescription"@));
    let len_s = spec_str_of(spec_member_of(vd, "lengthSeconds"@));
    let date = spec_str_of(
        spec_member_of(
            spec_member_of(spec_member_of(Some(doc), "microformat"@), "playerMicroformatRenderer"@),
            "uploadDate"@,
        ),
    );
    match (title, descr, len_s, date) {
        (Some(t), Some(ds), Some(l), Some(u)) => match (
            url_decoded(t),
            url_decoded(ds),
            url_decoded(l),
            url_decoded(u),
        ) {
            (Some(td), Some(dd), Some(ld), Some(ud)) => match spec_parse_seconds(ld) {
                Some(secs) => Some(
                    VideoDetailView {
                        title: td,
                        description: dd,
                        duration_seconds: secs,
                        publish_date: ud,
                    },
                ),
                None => None,
            },
            _ => None,
        },
        _ => None,
    }
}

/// Reads a video's detail out of a parsed player-response document.
pub fn extract_video_detail(doc: &JsonValue) -> (r: Option<VideoDetail>)
    ensures
        match r {
            Some(d) => spec_video_detail_of(*doc) == Some(d@),
            None => spec_video_detail_of(*doc) is None,
        },
{
    let vd = doc.member("videoDetails");
    let title = str_of(member_of(vd, "title"));
    let descr = str_of(member_of(vd, "shortDescription"));
    let len_s = str_of(member_of(vd, "lengthSeconds"));
    let date = str_of(member_of(
        member_of(member_of(Some(doc), "microformat"), "playerMicroformatRenderer"),
        "uploadDate",
    ));
    match (title, descr, len_s, date) {
        (Some(t), Some(ds), Some(l), Some(u)) => {
            let td = decode_component(t.as_str());
            let dd = decode_component(ds.as_str());
            let ld = decode_component(l.as_str());
            let ud = decode_component(u.as_str());
            match (td, dd, ld, ud) {
                (Some(td), Some(dd), Some(ld), Some(ud)) => match parse_seconds(ld.as_str()) {
                    Some(secs) => Some(
                        VideoDetail {
                            title: td,
                            description: dd,
                            duration_seconds: secs,
                            publish_date: ud,
                        },
                    ),
                    None => None,
                },
                _ => None,
            }
        },
        _ => None,
    }
}

} // verus!
