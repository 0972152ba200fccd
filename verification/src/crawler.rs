//! The uploads crawler: a pull-based state machine over pages of uploads.
//!
//! The crawler owns all crawl state and makes every decision: which URL to
//! fetch next, how to classify and extract what came back, when the crawl is
//! over, and which error to record. It performs no requests itself. A driver
//! asks [`YtUploadsCrawler::next_request`] for the URL of the pending fetch,
//! performs it, and hands the outcome to
//! [`YtUploadsCrawler::handle_response`]; buffered entries are then taken one
//! at a time with [`YtUploadsCrawler::next`]. Once an error is recorded, or
//! the buffer is drained with no continuation pending, no request is asked
//! for again and every outcome is ignored.

use vstd::prelude::*;

use crate::classify::{parse_json_data, spec_classified};
use crate::errors::{
    FetchLinksError, FetchLinksErrorView, ParseJsonDataErrorView, RequestError, RequestErrorView,
};
use crate::extract::{
    cont_grid, extract_entries, extract_token, first_page_grid, grid_items, lemma_entries_wf,
    spec_cont_grid, spec_entries, spec_first_page_grid, spec_items_of, spec_token_of, views_of,
    ContinuationToken, ContinuationTokenView, VideoInfo, VideoInfoView,
};
use crate::json::JsonValue;
use crate::urls::{
    browse_url, channel_videos_url, spec_browse_url, spec_channel_videos_url,
    spec_user_videos_url, spec_video_url, user_videos_url,
};

verus! {

/// What one fetch came to, as the driver reports it.
#[derive(Debug)]
pub enum FetchOutcome {
    /// The transport delivered a status code and a body.
    Response { status: u16, body: String },
    /// The request could not be completed at the transport level.
    Failed,
}

/// The abstract value of a [`FetchOutcome`].
pub enum FetchOutcomeView {
    Response { status: u16, body: Seq<char> },
    Failed,
}

impl View for FetchOutcome {
    type V = FetchOutcomeView;

    open spec fn view(&self) -> FetchOutcomeView {
        match self {
            FetchOutcome::Response { status, body } => FetchOutcomeView::Response {
                status: *status,
                body: body@,
            },
            FetchOutcome::Failed => FetchOutcomeView::Failed,
        }
    }
}

/// The status codes the crawl takes as success.
pub open spec fn spec_success(status: u16) -> bool {
    200 <= status < 300
}

/// The abstract state of a crawl.
#[verifier::ext_equal]
pub struct CrawlView {
    /// The identifier the crawl was started with; immutable for its life.
    pub channel: Seq<char>,
    /// Entries fetched but not yet yielded, in yield order.
    pub links: Seq<VideoInfoView>,
    /// Whether the one-time resolution and first fetch is behind us.
    pub started: bool,
    /// Whether the channel-style candidate was already rejected, so the
    /// username-style candidate is the pending one.
    pub user_fallback: bool,
    /// The continuation token of the last page, if it carried one.
    pub cont: Option<ContinuationTokenView>,
    /// The terminal error, set at most once.
    pub error: Option<FetchLinksErrorView>,
}

/// The state a fresh crawler starts in.
pub open spec fn spec_initial(channel: Seq<char>) -> CrawlView {
    CrawlView {
        channel: channel,
        links: Seq::empty(),
        started: false,
        user_fallback: false,
        cont: None,
        error: None,
    }
}

/// The URL of the fetch the crawl needs next: a candidate endpoint while the
/// crawl has not started, the continuation endpoint when the buffer is
/// drained and a token is pending, and nothing at all once an error is
/// recorded, while entries wait in the buffer, or after the final page.
pub open spec fn spec_next_request(v: CrawlView) -> Option<Seq<char>> {
    if v.error is Some {
        None
    } else if !v.started {
        if !v.user_fallback {
            Some(spec_channel_videos_url(v.channel))
        } else {
            Some(spec_user_videos_url(v.channel))
        }
    } else if v.links.len() > 0 {
        None
    } else {
        match v.cont {
            Some(t) => Some(spec_browse_url(t.continuation, t.tracking_param)),
            None => None,
        }
    }
}

/// The state after a usable first-page document: either the grid's entries
/// and its token are taken over, or the uploads listing is missing.
pub open spec fn spec_step_first_page(v: CrawlView, doc: JsonValue) -> CrawlView {
    let grid = spec_first_page_grid(doc);
    match spec_items_of(grid) {
        Some(items) => CrawlView {
            links: spec_entries(items),
            started: true,
            cont: spec_token_of(grid),
            ..v
        },
        None => CrawlView {
            started: true,
            error: Some(FetchLinksErrorView::MissingUploadsPage),
            ..v
        },
    }
}

/// The state after a usable continuation-page document.
pub open spec fn spec_step_cont_page(v: CrawlView, doc: JsonValue) -> CrawlView {
    let grid = spec_cont_grid(doc);
    match spec_items_of(grid) {
        Some(items) => CrawlView { links: spec_entries(items), cont: spec_token_of(grid), ..v },
        None => CrawlView { error: Some(FetchLinksErrorView::MissingUploadsPage), ..v },
    }
}

/// How one fetch outcome advances the crawl. When no fetch is pending the
/// outcome is ignored. A failed transport, a rejected second candidate, an
/// HTML or unparsable body, and a missing listing each record their error;
/// a usable document refills the buffer and takes over the next token.
pub open spec fn spec_step(v: CrawlView, o: FetchOutcomeView) -> CrawlView {
    if spec_next_request(v) is None {
        v
    } else {
        match o {
            FetchOutcomeView::Failed => CrawlView {
                started: true,
                error: Some(FetchLinksErrorView::RequestError(RequestErrorView::HTTPError)),
                ..v
            },
            FetchOutcomeView::Response { status, body } => {
                if !v.started {
                    if !spec_success(status) {
                        if !v.user_fallback {
                            CrawlView { user_fallback: true, ..v }
                        } else {
                            CrawlView {
                                started: true,
                                error: Some(
                                    FetchLinksErrorView::RequestError(RequestErrorView::NotFound),
                                ),
                                ..v
                            }
                        }
                    } else {
                        match spec_classified(body) {
                            Ok(doc) => spec_step_first_page(v, doc),
                            Err(e) => CrawlView {
                                started: true,
                                error: Some(
                                    FetchLinksErrorView::RequestError(
                                        RequestErrorView::ParseJsonDataError(e),
                                    ),
                                ),
                                ..v
                            },
                        }
                    }
                } else {
                    if !spec_success(status) {
                        CrawlView {
                            error: Some(
                                FetchLinksErrorView::RequestError(RequestErrorView::NotFound),
                            ),
                            ..v
                        }
                    } else {
                        match spec_classified(body) {
                            Ok(doc) => spec_step_cont_page(v, doc),
                            Err(e) => CrawlView {
                                error: Some(
                                    FetchLinksErrorView::RequestError(
                                        RequestErrorView::ParseJsonDataError(e),
                                    ),
                                ),
                                ..v
                            },
                        }
                    }
                }
            },
        }
    }
}

/// The crawl states that arise in a run: the buffer is empty while an error
/// is recorded or the crawl has not started, no token or error precedes the
/// start, and every buffered entry carries a non-empty id together with the
/// watch URL derived from it.
pub open spec fn wf(v: CrawlView) -> bool {
    &&& v.error is Some ==> v.links.len() == 0
    &&& !v.started ==> v.links.len() == 0 && v.cont is None && v.error is None
    &&& forall|i: int|
        0 <= i < v.links.len() ==> (#[trigger] v.links[i]).id.len() > 0 && v.links[i].url
            == spec_video_url(v.links[i].id)
}

/// Crawls the uploads of one channel, one page fetch at a time.
#[derive(Debug)]
pub struct YtUploadsCrawler {
    channel: String,
    links: Vec<VideoInfo>,
    started: bool,
    user_fallback: bool,
    next_continuation: Option<ContinuationToken>,
    error: Option<FetchLinksError>,
}

impl View for YtUploadsCrawler {
    type V = CrawlView;

    closed spec fn view(&self) -> CrawlView {
        CrawlView {
            channel: self.channel@,
            links: views_of(self.links@),
            started: self.started,
            user_fallback: self.user_fallback,
            cont: match self.next_continuation {
                Some(t) => Some(t@),
                None => None,
            },
            error: match self.error {
                Some(e) => Some(e@),
                None => None,
            },
        }
    }
}

impl YtUploadsCrawler {
    /// Creates a crawler for the given channel identifier.
    pub fn channel(channel: &str) -> (r: YtUploadsCrawler)
        ensures
            r@ == spec_initial(channel@),
            wf(r@),
    {
        let r = YtUploadsCrawler {
            channel: String::from_str(channel),
            links: Vec::new(),
            started: false,
            user_fallback: false,
            next_continuation: None,
            error: None,
        };
        proof {
            assert(views_of(r.links@) =~= Seq::<VideoInfoView>::empty());
            assert(r@ =~= spec_initial(channel@));
        }
        r
    }

    /// The error recorded for the crawl, if any; stable once set.
    pub fn error(&self) -> (r: &Option<FetchLinksError>)
        ensures
            match r {
                Some(e) => self@.error == Some(e@),
                None => self@.error is None,
            },
    {
        &self.error
    }

    /// The URL of the fetch the crawl needs next, or nothing when entries are
    /// still buffered, the crawl is over, or an error is recorded.
    pub fn next_request(&self) -> (r: Option<String>)
        ensures
            match r {
                Some(u) => spec_next_request(self@) == Some(u@),
                None => spec_next_request(self@) is None,
            },
    {
        if self.error.is_some() {
            return None;
        }
        if !self.started {
            if !self.user_fallback {
                Some(channel_videos_url(self.channel.as_str()))
            } else {
                Some(user_videos_url(self.channel.as_str()))
            }
        } else if self.links.len() > 0 {
            None
        } else {
            match &self.next_continuation {
                Some(t) => Some(browse_url(t.continuation.as_str(), t.tracking_param.as_str())),
                None => None,
            }
        }
    }

    /// Yields the next buffered entry, in crawl order; nothing once the
    /// buffer is empty. Never fetches and never re-orders.
    pub fn next(&mut self) -> (r: Option<VideoInfo>)
        ensures
            match r {
                Some(e) => old(self)@.links.len() > 0 && e@ == old(self)@.links[0] && final(self)@
                    == (CrawlView { links: old(self)@.links.drop_first(), ..old(self)@ }),
                None => old(self)@.links.len() == 0 && final(self)@ == old(self)@,
            },
            wf(old(self)@) ==> wf(final(self)@),
    {
        if self.links.len() > 0 {
            let e = self.links.remove(0);
            proof {
                assert(views_of(self.links@) =~= views_of(old(self).links@).drop_first());
                assert(self@ =~= (CrawlView {
                    links: old(self)@.links.drop_first(),
                    ..old(self)@
                }));
            }
            Some(e)
        } else {
            None
        }
    }

    /// Feeds the outcome of the fetch that [`Self::next_request`] asked for.
    /// When no fetch is pending, the outcome is ignored.
    pub fn handle_response(&mut self, outcome: FetchOutcome)
        ensures
            final(self)@ == spec_step(old(self)@, outcome@),
            wf(old(self)@) ==> wf(final(self)@),
    {
        if self.error.is_some() {
            return;
        }
        if !self.started {
            match outcome {
                FetchOutcome::Failed => {
                    self.started = true;
                    self.error = Some(
                        FetchLinksError::RequestError(RequestError::HTTPError),
                    );
                },
                FetchOutcome::Response { status, body } => {
                    if !(200 <= status && status < 300) {
                        if !self.user_fallback {
                            self.user_fallback = true;
                        } else {
                            self.started = true;
                            self.error = Some(
                                FetchLinksError::RequestError(RequestError::NotFound),
                            );
                        }
                    } else {
                        match parse_json_data(body.as_str()) {
                            Ok(doc) => {
                                self.started = true;
                                self.apply_first_page(&doc);
                            },
                            Err(e) => {
                                self.started = true;
                                self.error = Some(
                                    FetchLinksError::RequestError(
                                        RequestError::ParseJsonDataError(e),
                                    ),
                                );
                            },
                        }
                    }
                },
            }
        } else if self.links.len() == 0 && self.next_continuation.is_some() {
            match outcome {
                FetchOutcome::Failed => {
                    self.started = true;
                    self.error = Some(
                        FetchLinksError::RequestError(RequestError::HTTPError),
                    );
                },
                FetchOutcome::Response { status, body } => {
                    if !(200 <= status && status < 300) {
                        self.error = Some(
                            FetchLinksError::RequestError(RequestError::NotFound),
                        );
                    } else {
                        match parse_json_data(body.as_str()) {
                            Ok(doc) => {
                                self.apply_cont_page(&doc);
                            },
                            Err(e) => {
                                self.error = Some(
                                    FetchLinksError::RequestError(
                                        RequestError::ParseJsonDataError(e),
                                    ),
                                );
                            },
                        }
                    }
                },
            }
        }
    }

    /// Takes a first-page document's entries and token over into the state.
    fn apply_first_page(&mut self, doc: &JsonValue)
        ensures
            final(self)@ == spec_step_first_page(old(self)@, *doc),
            old(self)@.error is None && old(self)@.links.len() == 0 ==> wf(final(self)@),
    {
        let grid = first_page_grid(doc);
        match grid_items(grid) {
            Some(items) => {
                let entries = extract_entries(items);
                let token = extract_token(grid);
                self.links = entries;
                self.next_continuation = token;
                self.started = true;
                proof {
                    lemma_entries_wf(items@);
                    assert(self@ =~= spec_step_first_page(old(self)@, *doc));
                    assert forall|i: int| 0 <= i < self@.links.len() implies (#[trigger] self@
                        .links[i]).id.len() > 0 && self@.links[i].url == spec_video_url(
                        self@.links[i].id,
                    ) by {
                        assert(self@.links[i] == spec_entries(items@)[i]);
                    }
                }
            },
            None => {
                self.started = true;
                self.error = Some(FetchLinksError::MissingUploadsPage);
                proof {
                    assert(self@ =~= spec_step_first_page(old(self)@, *doc));
                }
            },
        }
    }

    /// Takes a continuation-page document's entries and token over into the
    /// state.
    fn apply_cont_page(&mut self, doc: &JsonValue)
        ensures
            final(self)@ == spec_step_cont_page(old(self)@, *doc),
            old(self)@.error is None && old(self)@.links.len() == 0 && old(self)@.started ==> wf(
                final(self)@,
            ),
    {
        let grid = cont_grid(doc);
        match grid_items(grid) {
            Some(items) => {
                let entries = extract_entries(items);
                let token = extract_token(grid);
                self.links = entries;
                self.next_continuation = token;
                proof {
                    lemma_entries_wf(items@);
                    assert(self@ =~= spec_step_cont_page(old(self)@, *doc));
                    assert forall|i: int| 0 <= i < self@.links.len() implies (#[trigger] self@
                        .links[i]).id.len() > 0 && self@.links[i].url == spec_video_url(
                        self@.links[i].id,
                    ) by {
                        assert(self@.links[i] == spec_entries(items@)[i]);
                    }
                }
            },
            None => {
                self.error = Some(FetchLinksError::MissingUploadsPage);
                proof {
                    assert(self@ =~= spec_step_cont_page(old(self)@, *doc));
                }
            },
        }
    }
}

/// Once the crawl is finished — an error is recorded, or it started, drained
/// its buffer and holds no continuation — there is nothing left to yield, no
/// request is asked for, and no outcome changes the state.
pub proof fn lemma_finished_state_is_stable(v: CrawlView, o: FetchOutcomeView)
    requires
        wf(v),
        v.error is Some || (v.started && v.links.len() == 0 && v.cont is None),
    ensures
        v.links.len() == 0,
        spec_next_request(v) is None,
        spec_step(v, o) == v,
{
}

/// Resolver fallback order: when the channel-style candidate is rejected with
/// a non-success status and the username-style candidate answers with a
/// usable first page, the crawl proceeds with the second candidate's data.
pub proof fn lemma_fallback_candidate_succeeds(
    channel: Seq<char>,
    s1: u16,
    b1: Seq<char>,
    s2: u16,
    b2: Seq<char>,
    doc: JsonValue,
    items: Seq<JsonValue>,
)
    requires
        !spec_success(s1),
        spec_success(s2),
        spec_classified(b2) == Ok::<JsonValue, ParseJsonDataErrorView>(doc),
        spec_items_of(spec_first_page_grid(doc)) == Some(items),
    ensures
        ({
            let v1 = spec_step(
                spec_initial(channel),
                FetchOutcomeView::Response { status: s1, body: b1 },
            );
            let v2 = spec_step(v1, FetchOutcomeView::Response { status: s2, body: b2 });
            &&& spec_next_request(v1) == Some(spec_user_videos_url(channel))
            &&& v2.started
            &&& v2.error is None
            &&& v2.links == spec_entries(items)
            &&& v2.cont == spec_token_of(spec_first_page_grid(doc))
        }),
{
}

/// Both candidate endpoints answer without success: the crawl ends with no
/// entries, reports that the channel was not found, and asks for nothing
/// further.
pub proof fn lemma_both_candidates_rejected(
    channel: Seq<char>,
    s1: u16,
    b1: Seq<char>,
    s2: u16,
    b2: Seq<char>,
)
    requires
        !spec_success(s1),
        !spec_success(s2),
    ensures
        ({
            let v1 = spec_step(
                spec_initial(channel),
                FetchOutcomeView::Response { status: s1, body: b1 },
            );
            let v2 = spec_step(v1, FetchOutcomeView::Response { status: s2, body: b2 });
            &&& v2.links.len() == 0
            &&& v2.error == Some(
                FetchLinksErrorView::RequestError(RequestErrorView::NotFound),
            )
            &&& spec_next_request(v2) is None
        }),
{
}

/// A success response whose body is HTML ends the crawl at once, whichever
/// fetch was pending, and the recorded error preserves the body.
pub proof fn lemma_html_body_is_terminal(v: CrawlView, status: u16, body: Seq<char>)
    requires
        wf(v),
        spec_next_request(v) is Some,
        spec_success(status),
        crate::classify::spec_is_html(body),
    ensures
        ({
            let v1 = spec_step(v, FetchOutcomeView::Response { status, body });
            &&& v1.error == Some(
                FetchLinksErrorView::RequestError(
                    RequestErrorView::ParseJsonDataError(ParseJsonDataErrorView::Html(body)),
                ),
            )
            &&& v1.links.len() == 0
            &&& spec_next_request(v1) is None
        }),
{
}

/// A first page that carries a continuation token and yields no entries,
/// followed by a continuation page whose grid carries entries and no further
/// token: the crawl asks for exactly the token's browse URL in between, ends
/// with the continuation page's entries, and asks for nothing once they are
/// drained. No error is ever recorded.
pub proof fn lemma_two_page_crawl(
    channel: Seq<char>,
    s1: u16,
    b1: Seq<char>,
    doc1: JsonValue,
    tok: ContinuationTokenView,
    s2: u16,
    b2: Seq<char>,
    doc2: JsonValue,
    items2: Seq<JsonValue>,
)
    requires
        spec_success(s1),
        spec_classified(b1) == Ok::<JsonValue, ParseJsonDataErrorView>(doc1),
        spec_items_of(spec_first_page_grid(doc1)) matches Some(items1) && spec_entries(items1)
            == Seq::<VideoInfoView>::empty(),
        spec_token_of(spec_first_page_grid(doc1)) == Some(tok),
        spec_success(s2),
        spec_classified(b2) == Ok::<JsonValue, ParseJsonDataErrorView>(doc2),
        spec_items_of(spec_cont_grid(doc2)) == Some(items2),
        spec_token_of(spec_cont_grid(doc2)) is None,
    ensures
        ({
            let v1 = spec_step(
                spec_initial(channel),
                FetchOutcomeView::Response { status: s1, body: b1 },
            );
            let v2 = spec_step(v1, FetchOutcomeView::Response { status: s2, body: b2 });
            &&& v1.error is None
            &&& v1.links.len() == 0
            &&& spec_next_request(v1) == Some(
                spec_browse_url(tok.continuation, tok.tracking_param),
            )
            &&& v2.error is None
            &&& v2.links == spec_entries(items2)
            &&& v2.cont is None
            &&& spec_next_request((CrawlView { links: Seq::empty(), ..v2 })) is None
        }),
{
}

} // verus!
