//! Extracting video entries and the continuation token from a page document.
//!
//! Both page shapes — the first page and a continuation page — lead to the
//! same kind of grid section; only the fixed path to it differs. Within a
//! page the server's order of item records is preserved, and a raw item
//! record that lacks a usable video id is dropped whole.

use vstd::prelude::*;

use crate::json::{
    element_of, member_of, spec_element_of, spec_member, spec_member_of, spec_opt, spec_str_of,
    str_of, JsonValue,
};
use crate::urls::{make_youtube_video_url, spec_video_url};

verus! {

/// One discovered upload, ready for printing: plain strings throughout.
#[derive(Debug)]
pub struct VideoInfo {
    pub id: String,
    pub url: String,
    pub title: String,
    pub thumbnail: String,
}

/// The abstract value of a [`VideoInfo`].
pub struct VideoInfoView {
    pub id: Seq<char>,
    pub url: Seq<char>,
    pub title: Seq<char>,
    pub thumbnail: Seq<char>,
}

impl View for VideoInfo {
    type V = VideoInfoView;

    open spec fn view(&self) -> VideoInfoView {
        VideoInfoView {
            id: self.id@,
            url: self.url@,
            title: self.title@,
            thumbnail: self.thumbnail@,
        }
    }
}

/// The opaque pagination cursor of one page: round-tripped into the next
/// request, never parsed or validated.
#[derive(Debug)]
pub struct ContinuationToken {
    pub continuation: String,
    pub tracking_param: String,
}

/// The abstract value of a [`ContinuationToken`].
pub struct ContinuationTokenView {
    pub continuation: Seq<char>,
    pub tracking_param: Seq<char>,
}

impl View for ContinuationToken {
    type V = ContinuationTokenView;

    open spec fn view(&self) -> ContinuationTokenView {
        ContinuationTokenView {
            continuation: self.continuation@,
            tracking_param: self.tracking_param@,
        }
    }
}

/// The views of a sequence of entries.
pub open spec fn views_of(entries: Seq<VideoInfo>) -> Seq<VideoInfoView> {
    entries.map_values(|e: VideoInfo| e@)
}

/// The title of an item: the first rich-text run, else the raw-text field,
/// else empty.
pub open spec fn spec_title_of(gvr: Option<JsonValue>) -> Seq<char> {
    let title = spec_member_of(gvr, "title"@);
    match spec_str_of(
        spec_member_of(spec_element_of(spec_member_of(title, "runs"@), 0), "text"@),
    ) {
        Some(t) => t,
        None => match spec_str_of(spec_member_of(title, "simpleText"@)) {
            Some(t) => t,
            None => Seq::empty(),
        },
    }
}

/// The thumbnail URL of an item, empty if absent.
pub open spec fn spec_thumbnail_of(gvr: Option<JsonValue>) -> Seq<char> {
    match spec_str_of(
        spec_member_of(
            spec_element_of(
                spec_member_of(spec_member_of(gvr, "thumbnail"@), "thumbnails"@),
                0,
            ),
            "url"@,
        ),
    ) {
        Some(t) => t,
        None => Seq::empty(),
    }
}

/// The entry an item record stands for, or nothing when the record lacks a
/// non-empty video id.
pub open spec fn spec_entry_of(item: JsonValue) -> Option<VideoInfoView> {
    let gvr = spec_member(item, "gridVideoRenderer"@);
    match spec_str_of(spec_member_of(gvr, "videoId"@)) {
        Some(id) => if id.len() > 0 {
            Some(
                VideoInfoView {
                    id: id,
                    url: spec_video_url(id),
                    title: spec_title_of(gvr),
                    thumbnail: spec_thumbnail_of(gvr),
                },
            )
        } else {
            None
        },
        None => None,
    }
}

/// The entries of a page's item records, in the order the records appear.
pub open spec fn spec_entries(items: Seq<JsonValue>) -> Seq<VideoInfoView>
    decreases items.len(),
{
    if items.len() == 0 {
        Seq::empty()
    } else {
        match spec_entry_of(items[0]) {
            Some(e) => seq![e] + spec_entries(items.drop_first()),
            None => spec_entries(items.drop_first()),
        }
    }
}

/// The continuation token of a grid section, when both of its opaque fields
/// are present.
pub open spec fn spec_token_of(grid: Option<JsonValue>) -> Option<ContinuationTokenView> {
    let ncd = spec_member_of(
        spec_element_of(spec_member_of(grid, "continuations"@), 0),
        "nextContinuationData"@,
    );
    match spec_str_of(spec_member_of(ncd, "continuation"@)) {
        Some(c) => match spec_str_of(spec_member_of(ncd, "clickTrackingParams"@)) {
            Some(t) => Some(ContinuationTokenView { continuation: c, tracking_param: t }),
            None => None,
        },
        None => None,
    }
}

/// The grid section of a first-page document.
pub open spec fn spec_first_page_grid(doc: JsonValue) -> Option<JsonValue> {
    let response = spec_member_of(spec_element_of(Some(doc), 1), "response"@);
    let renderer = spec_member_of(
        spec_member_of(response, "contents"@),
        "twoColumnBrowseResultsRenderer"@,
    );
    let tab = spec_element_of(spec_member_of(renderer, "tabs"@), 1);
    let section_list = spec_member_of(
        spec_member_of(spec_member_of(tab, "tabRenderer"@), "content"@),
        "sectionListRenderer"@,
    );
    let item_section = spec_member_of(
        spec_element_of(spec_member_of(section_list, "contents"@), 0),
        "itemSectionRenderer"@,
    );
    spec_member_of(
        spec_element_of(spec_member_of(item_section, "contents"@), 0),
        "gridRenderer"@,
    )
}

/// The grid section of a continuation-page document.
pub open spec fn spec_cont_grid(doc: JsonValue) -> Option<JsonValue> {
    let response = spec_member_of(spec_element_of(Some(doc), 1), "response"@);
    spec_member_of(spec_member_of(response, "continuationContents"@), "gridContinuation"@)
}

/// The item records of a grid section, when its items field is an array.
pub open spec fn spec_items_of(grid: Option<JsonValue>) -> Option<Seq<JsonValue>> {
    match spec_member_of(grid, "items"@) {
        Some(JsonValue::Arr(items)) => Some(items@),
        _ => None,
    }
}

pub fn first_page_grid<'a>(doc: &'a JsonValue) -> (r: Option<&'a JsonValue>)
    ensures
        spec_opt(r) == spec_first_page_grid(*doc),
{
    let response = member_of(doc.element(1), "response");
    let renderer = member_of(member_of(response, "contents"), "twoColumnBrowseResultsRenderer");
    let tab = element_of(member_of(renderer, "tabs"), 1);
    let section_list = member_of(
        member_of(member_of(tab, "tabRenderer"), "content"),
        "sectionListRenderer",
    );
    let item_section = member_of(
        element_of(member_of(section_list, "contents"), 0),
        "itemSectionRenderer",
    );
    member_of(element_of(member_of(item_section, "contents"), 0), "gridRenderer")
}

pub fn cont_grid<'a>(doc: &'a JsonValue) -> (r: Option<&'a JsonValue>)
    ensures
        spec_opt(r) == spec_cont_grid(*doc),
{
    let response = member_of(doc.element(1), "response");
    member_of(member_of(response, "continuationContents"), "gridContinuation")
}

pub fn grid_items<'a>(grid: Option<&'a JsonValue>) -> (r: Option<&'a Vec<JsonValue>>)
    ensures
        match r {
            Some(items) => spec_items_of(spec_opt(grid)) == Some(items@),
            None => spec_items_of(spec_opt(grid)) is None,
        },
{
    match member_of(grid, "items") {
        Some(j) => match j {
            JsonValue::Arr(items) => Some(items),
            _ => None,
        },
        None => None,
    }
}

fn extract_title(gvr: Option<&JsonValue>) -> (r: String)
    ensures
        r@ == spec_title_of(spec_opt(gvr)),
{
    let title = member_of(gvr, "title");
    match str_of(member_of(element_of(member_of(title, "runs"), 0), "text")) {
        Some(t) => t.clone(),
        None => match str_of(member_of(title, "simpleText")) {
            Some(t) => t.clone(),
            None => String::new(),
        },
    }
}

fn extract_thumbnail(gvr: Option<&JsonValue>) -> (r: String)
    ensures
        r@ == spec_thumbnail_of(spec_opt(gvr)),
{
    match str_of(member_of(
        element_of(member_of(member_of(gvr, "thumbnail"), "thumbnails"), 0),
        "url",
    )) {
        Some(t) => t.clone(),
        None => String::new(),
    }
}

pub fn extract_entry(item: &JsonValue) -> (r: Option<VideoInfo>)
    ensures
        match r {
            Some(e) => spec_entry_of(*item) == Some(e@),
            None => spec_entry_of(*item) is None,
        },
{
    let gvr = item.member("gridVideoRenderer");
    match str_of(member_of(gvr, "videoId")) {
        Some(id) => {
            if id.as_str().unicode_len() == 0 {
                return None;
            }
            let id_s = id.clone();
            let url = make_youtube_video_url(id_s.as_str());
            let title = extract_title(gvr);
            let thumbnail = extract_thumbnail(gvr);
            Some(VideoInfo { id: id_s, url, title, thumbnail })
        },
        None => None,
    }
}

pub fn extract_token(grid: Option<&JsonValue>) -> (r: Option<ContinuationToken>)
    ensures
        match r {
            Some(t) => spec_token_of(spec_opt(grid)) == Some(t@),
            None => spec_token_of(spec_opt(grid)) is None,
        },
{
    let ncd = member_of(
        element_of(member_of(grid, "continuations"), 0),
        "nextContinuationData",
    );
    match str_of(member_of(ncd, "continuation")) {
        Some(c) => match str_of(member_of(ncd, "clickTrackingParams")) {
            Some(t) => Some(
                ContinuationToken { continuation: c.clone(), tracking_param: t.clone() },
            ),
            None => None,
        },
        None => None,
    }
}

/// Appending one item record appends exactly its entry, if it has one.
pub proof fn lemma_entries_push(items: Seq<JsonValue>, x: JsonValue)
    ensures
        spec_entries(items.push(x)) == spec_entries(items) + (match spec_entry_of(x) {
            Some(e) => seq![e],
            None => Seq::<VideoInfoView>::empty(),
        }),
    decreases items.len(),
{
    let tail = (match spec_entry_of(x) {
        Some(e) => seq![e],
        None => Seq::<VideoInfoView>::empty(),
    });
    let lhs = spec_entries(items.push(x));
    let rhs = spec_entries(items) + tail;
    if items.len() == 0 {
        assert(items.push(x).len() == 1);
        assert(items.push(x)[0] == x);
        assert(items.push(x).drop_first() =~= Seq::<JsonValue>::empty());
        assert(spec_entries(items.push(x).drop_first()) == Seq::<VideoInfoView>::empty());
        match spec_entry_of(x) {
            Some(e) => {
                assert(lhs == seq![e] + spec_entries(items.push(x).drop_first()));
                assert(lhs =~= seq![e]);
                assert(rhs =~= seq![e]);
            },
            None => {
                assert(lhs == spec_entries(items.push(x).drop_first()));
                assert(rhs =~= Seq::<VideoInfoView>::empty());
            },
        }
        assert(lhs == rhs);
    } else {
        assert(items.push(x)[0] == items[0]);
        assert(items.push(x).drop_first() =~= items.drop_first().push(x));
        lemma_entries_push(items.drop_first(), x);
        assert(spec_entries(items.push(x).drop_first()) == spec_entries(items.drop_first())
            + tail);
        match spec_entry_of(items[0]) {
            Some(e) => {
                assert(lhs == seq![e] + spec_entries(items.push(x).drop_first()));
                assert(rhs == (seq![e] + spec_entries(items.drop_first())) + tail);
                assert(seq![e] + (spec_entries(items.drop_first()) + tail) =~= (seq![e]
                    + spec_entries(items.drop_first())) + tail);
            },
            None => {
                assert(lhs == spec_entries(items.push(x).drop_first()));
                assert(rhs == spec_entries(items.drop_first()) + tail);
            },
        }
        assert(lhs == rhs);
    }
}

/// A page's entries come from its item records in order: the entries of two
/// stretches in a row are the entries of the first stretch followed by those
/// of the second. The crawler never re-orders and never deduplicates.
pub proof fn lemma_entries_concat(s1: Seq<JsonValue>, s2: Seq<JsonValue>)
    ensures
        spec_entries(s1 + s2) == spec_entries(s1) + spec_entries(s2),
    decreases s1.len(),
{
    if s1.len() == 0 {
        assert(s1 + s2 =~= s2);
        assert(spec_entries(s1) + spec_entries(s2) =~= spec_entries(s2));
    } else {
        assert((s1 + s2)[0] == s1[0]);
        assert((s1 + s2).drop_first() =~= s1.drop_first() + s2);
        lemma_entries_concat(s1.drop_first(), s2);
        match spec_entry_of(s1[0]) {
            Some(e) => {
                assert(seq![e] + (spec_entries(s1.drop_first()) + spec_entries(s2)) =~= (seq![e]
                    + spec_entries(s1.drop_first())) + spec_entries(s2));
            },
            None => {},
        }
    }
}

proof fn lemma_entry_wf_at(items: Seq<JsonValue>, i: int)
    requires
        0 <= i < spec_entries(items).len(),
    ensures
        spec_entries(items)[i].id.len() > 0,
        spec_entries(items)[i].url == spec_video_url(spec_entries(items)[i].id),
    decreases items.len(),
{
    if items.len() > 0 {
        match spec_entry_of(items[0]) {
            Some(e) => {
                assert(spec_entries(items) == seq![e] + spec_entries(items.drop_first()));
                if i == 0 {
                    assert(spec_entries(items)[0] == e);
                } else {
                    assert(spec_entries(items)[i] == spec_entries(items.drop_first())[i - 1]);
                    lemma_entry_wf_at(items.drop_first(), i - 1);
                }
            },
            None => {
                lemma_entry_wf_at(items.drop_first(), i);
            },
        }
    }
}

/// Every extracted entry has a non-empty id, and its URL is the watch URL of
/// that id.
pub proof fn lemma_entries_wf(items: Seq<JsonValue>)
    ensures
        forall|i: int|
            0 <= i < spec_entries(items).len() ==> (#[trigger] spec_entries(items)[i]).id.len() > 0
                && spec_entries(items)[i].url == spec_video_url(spec_entries(items)[i].id),
{
    assert forall|i: int| 0 <= i < spec_entries(items).len() implies (#[trigger] spec_entries(
        items,
    )[i]).id.len() > 0 && spec_entries(items)[i].url == spec_video_url(
        spec_entries(items)[i].id,
    ) by {
        lemma_entry_wf_at(items, i);
    }
}

/// The entries of a page's item records, in server order.
pub fn extract_entries(items: &Vec<JsonValue>) -> (r: Vec<VideoInfo>)
    ensures
        views_of(r@) == spec_entries(items@),
{
    let mut out: Vec<VideoInfo> = Vec::new();
    let mut i: usize = 0;
    proof {
        assert(items@.take(0) =~= Seq::<JsonValue>::empty());
        assert(views_of(out@) =~= Seq::<VideoInfoView>::empty());
    }
    while i < items.len()
        invariant
            i <= items@.len(),
            views_of(out@) == spec_entries(items@.take(i as int)),
        decreases items@.len() - i,
    {
        let ghost prev = out@;
        match extract_entry(&items[i]) {
            Some(e) => {
                out.push(e);
                proof {
                    assert(views_of(out@) =~= views_of(prev).push(out@[out@.len() - 1]@));
                }
            },
            None => {},
        }
        proof {
            lemma_entries_push(items@.take(i as int), items@[i as int]);
            assert(items@.take(i as int).push(items@[i as int]) =~= items@.take(i as int + 1));
            match spec_entry_of(items@[i as int]) {
                Some(e) => {
                    assert(views_of(out@) =~= spec_entries(items@.take(i as int)) + seq![e]);
                },
                None => {},
            }
        }
        i += 1;
    }
    proof {
        assert(items@.take(items@.len() as int) =~= items@);
    }
    out
}

} // verus!
