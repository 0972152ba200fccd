use yt_chanvids::{FetchLinksError, FetchOutcome, ParseJsonDataError, RequestError, VideoInfo,
    YtUploadsCrawler};

/// Serves a scripted list of responses in order and counts every fetch, so a
/// test can check how many requests a crawl performed and which URLs it
/// asked for.
struct ScriptedFetch {
    responses: Vec<Option<(u16, String)>>,
    urls: Vec<String>,
    calls: usize,
}

impl ScriptedFetch {
    fn new(responses: Vec<Option<(u16, &str)>>) -> ScriptedFetch {
        ScriptedFetch {
            responses: responses
                .into_iter()
                .map(|r| r.map(|(s, b)| (s, b.to_string())))
                .collect(),
            urls: Vec::new(),
            calls: 0,
        }
    }

    fn serve(&mut self, url: &str) -> FetchOutcome {
        self.urls.push(url.to_string());
        let next = self.responses.get(self.calls).cloned().flatten();
        self.calls += 1;
        match next {
            Some((status, body)) => FetchOutcome::Response { status, body },
            None => FetchOutcome::Failed,
        }
    }
}

/// One pull: performs as many fetches as the crawler asks for, then takes the
/// next entry (or none).
fn drive(crawler: &mut YtUploadsCrawler, fetch: &mut ScriptedFetch) -> Option<VideoInfo> {
    loop {
        match crawler.next_request() {
            Some(url) => {
                let outcome = fetch.serve(&url);
                crawler.handle_response(outcome);
            }
            None => return crawler.next(),
        }
    }
}

fn item(id: &str, title: &str) -> String {
    let thumb = format!("https://i.example/{}.jpg", id);
    format!(
        "{{\"gridVideoRenderer\": {{\"videoId\": \"{}\", \
         \"title\": {{\"runs\": [{{\"text\": \"{}\"}}]}}, \
         \"thumbnail\": {{\"thumbnails\": [{{\"url\": \"{}\"}}]}}}}}}",
        id, title, thumb
    )
}

fn first_page(items: &[String], continuation: Option<(&str, &str)>) -> String {
    let cont = match continuation {
        Some((c, t)) => format!(
            ", \"continuations\": [{{\"nextContinuationData\": \
             {{\"continuation\": \"{}\", \"clickTrackingParams\": \"{}\"}}}}]",
            c, t
        ),
        None => String::new(),
    };
    format!(
        "[null, {{\"response\": {{\"contents\": {{\"twoColumnBrowseResultsRenderer\": \
         {{\"tabs\": [null, {{\"tabRenderer\": {{\"content\": {{\"sectionListRenderer\": \
         {{\"contents\": [{{\"itemSectionRenderer\": {{\"contents\": \
         [{{\"gridRenderer\": {{\"items\": [{}]{}}}}}]}}}}]}}}}}}}}]}}}}}}}}]",
        items.join(", "),
        cont
    )
}

fn continuation_page(items: &[String], continuation: Option<(&str, &str)>) -> String {
    let cont = match continuation {
        Some((c, t)) => format!(
            ", \"continuations\": [{{\"nextContinuationData\": \
             {{\"continuation\": \"{}\", \"clickTrackingParams\": \"{}\"}}}}]",
            c, t
        ),
        None => String::new(),
    };
    format!(
        "[null, {{\"response\": {{\"continuationContents\": {{\"gridContinuation\": \
         {{\"items\": [{}]{}}}}}}}}}]",
        items.join(", "),
        cont
    )
}

#[test]
fn first_candidate_succeeds() {
    let page = first_page(&[item("a1", "First"), item("a2", "Second")], None);
    let mut fetch = ScriptedFetch::new(vec![Some((200, page.as_str()))]);
    let mut crawler = YtUploadsCrawler::channel("UC123");

    let one = drive(&mut crawler, &mut fetch).expect("entry expected");
    assert_eq!(one.id, "a1");
    assert_eq!(one.url, "https://www.youtube.com/watch?v=a1");
    assert_eq!(one.title, "First");
    assert_eq!(one.thumbnail, "https://i.example/a1.jpg");
    let two = drive(&mut crawler, &mut fetch).expect("entry expected");
    assert_eq!(two.id, "a2");
    assert!(drive(&mut crawler, &mut fetch).is_none());
    assert!(crawler.error().is_none());
    assert_eq!(fetch.calls, 1);
    assert_eq!(
        fetch.urls[0],
        "https://www.youtube.com/channel/UC123/videos?view=0&flow=grid&pbj=1&sort=dd"
    );
}

#[test]
fn fallback_to_username_candidate() {
    let page = first_page(&[item("v1", "Only")], None);
    let mut fetch = ScriptedFetch::new(vec![Some((404, "")), Some((200, page.as_str()))]);
    let mut crawler = YtUploadsCrawler::channel("somebody");

    let one = drive(&mut crawler, &mut fetch).expect("entry expected");
    assert_eq!(one.id, "v1");
    assert!(drive(&mut crawler, &mut fetch).is_none());
    assert!(crawler.error().is_none());
    assert_eq!(fetch.calls, 2);
    assert_eq!(
        fetch.urls[1],
        "https://www.youtube.com/user/somebody/videos?view=0&flow=grid&pbj=1&sort=dd"
    );
}

#[test]
fn both_candidates_not_found() {
    let mut fetch = ScriptedFetch::new(vec![Some((404, "")), Some((404, ""))]);
    let mut crawler = YtUploadsCrawler::channel("nobody");

    assert!(drive(&mut crawler, &mut fetch).is_none());
    assert_eq!(fetch.calls, 2);
    match crawler.error() {
        Some(FetchLinksError::RequestError(RequestError::NotFound)) => {}
        other => panic!("unexpected error: {:?}", other),
    }
    // No further requests once the error is recorded.
    assert!(drive(&mut crawler, &mut fetch).is_none());
    assert_eq!(fetch.calls, 2);
}

#[test]
fn item_without_id_is_dropped() {
    let no_id = "{\"gridVideoRenderer\": {\"title\": {\"simpleText\": \"Ghost\"}}}".to_string();
    let page = first_page(&[item("k1", "Kept 1"), no_id, item("k2", "Kept 2")], None);
    let mut fetch = ScriptedFetch::new(vec![Some((200, page.as_str()))]);
    let mut crawler = YtUploadsCrawler::channel("UCx");

    let mut ids = Vec::new();
    while let Some(entry) = drive(&mut crawler, &mut fetch) {
        ids.push(entry.id);
    }
    assert_eq!(ids, vec!["k1".to_string(), "k2".to_string()]);
    assert!(crawler.error().is_none());
}

#[test]
fn html_body_is_reported_with_full_text() {
    let body = "<!DOCTYPE html>\n<html><body>blocked</body></html>";
    let mut fetch = ScriptedFetch::new(vec![Some((200, body))]);
    let mut crawler = YtUploadsCrawler::channel("UCx");

    assert!(drive(&mut crawler, &mut fetch).is_none());
    assert_eq!(fetch.calls, 1);
    match crawler.error() {
        Some(FetchLinksError::RequestError(RequestError::ParseJsonDataError(
            ParseJsonDataError::Html(preserved),
        ))) => assert_eq!(preserved, body),
        other => panic!("unexpected error: {:?}", other),
    }
}

#[test]
fn continuation_drained_with_two_fetches() {
    let page1 = first_page(&[], Some(("C1", "T1")));
    let page2 = continuation_page(&[item("b1", "One"), item("b2", "Two")], None);
    let mut fetch =
        ScriptedFetch::new(vec![Some((200, page1.as_str())), Some((200, page2.as_str()))]);
    let mut crawler = YtUploadsCrawler::channel("UCx");

    let one = drive(&mut crawler, &mut fetch).expect("entry expected");
    let two = drive(&mut crawler, &mut fetch).expect("entry expected");
    assert_eq!(one.id, "b1");
    assert_eq!(two.id, "b2");
    assert!(drive(&mut crawler, &mut fetch).is_none());
    assert!(crawler.error().is_none());
    assert_eq!(fetch.calls, 2);
    assert_eq!(
        fetch.urls[1],
        "https://www.youtube.com/browse_ajax?ctoken=C1&itct=T1"
    );
    // Exhaustion is stable: pulling again fetches nothing and yields nothing.
    assert!(drive(&mut crawler, &mut fetch).is_none());
    assert!(drive(&mut crawler, &mut fetch).is_none());
    assert_eq!(fetch.calls, 2);
    assert!(crawler.error().is_none());
}

#[test]
fn entries_keep_server_order_across_pages() {
    let page1 = first_page(&[item("p1", "A"), item("p2", "B")], Some(("CC", "TT")));
    let page2 = continuation_page(&[item("p3", "C"), item("p4", "D")], None);
    let mut fetch =
        ScriptedFetch::new(vec![Some((200, page1.as_str())), Some((200, page2.as_str()))]);
    let mut crawler = YtUploadsCrawler::channel("UCx");

    let mut ids = Vec::new();
    while let Some(entry) = drive(&mut crawler, &mut fetch) {
        ids.push(entry.id);
    }
    assert_eq!(
        ids,
        vec!["p1".to_string(), "p2".to_string(), "p3".to_string(), "p4".to_string()]
    );
    assert_eq!(fetch.calls, 2);
}

#[test]
fn transport_failure_is_terminal() {
    let mut fetch = ScriptedFetch::new(vec![None]);
    let mut crawler = YtUploadsCrawler::channel("UCx");

    assert!(drive(&mut crawler, &mut fetch).is_none());
    assert_eq!(fetch.calls, 1);
    match crawler.error() {
        Some(FetchLinksError::RequestError(RequestError::HTTPError)) => {}
        other => panic!("unexpected error: {:?}", other),
    }
    assert!(drive(&mut crawler, &mut fetch).is_none());
    assert_eq!(fetch.calls, 1);
}

#[test]
fn malformed_body_is_terminal() {
    let mut fetch = ScriptedFetch::new(vec![Some((200, "this is not json"))]);
    let mut crawler = YtUploadsCrawler::channel("UCx");

    assert!(drive(&mut crawler, &mut fetch).is_none());
    match crawler.error() {
        Some(FetchLinksError::RequestError(RequestError::ParseJsonDataError(
            ParseJsonDataError::Parse,
        ))) => {}
        other => panic!("unexpected error: {:?}", other),
    }
}

#[test]
fn missing_uploads_section_is_its_own_error() {
    let mut fetch = ScriptedFetch::new(vec![Some((200, "[null, {\"response\": {}}]"))]);
    let mut crawler = YtUploadsCrawler::channel("UCx");

    assert!(drive(&mut crawler, &mut fetch).is_none());
    match crawler.error() {
        Some(FetchLinksError::MissingUploadsPage) => {}
        other => panic!("unexpected error: {:?}", other),
    }
}

#[test]
fn rejected_continuation_fetch_is_terminal() {
    let page1 = first_page(&[item("q1", "A")], Some(("C9", "T9")));
    let mut fetch = ScriptedFetch::new(vec![Some((200, page1.as_str())), Some((404, ""))]);
    let mut crawler = YtUploadsCrawler::channel("UCx");

    let one = drive(&mut crawler, &mut fetch).expect("entry expected");
    assert_eq!(one.id, "q1");
    assert!(drive(&mut crawler, &mut fetch).is_none());
    assert_eq!(fetch.calls, 2);
    match crawler.error() {
        Some(FetchLinksError::RequestError(RequestError::NotFound)) => {}
        other => panic!("unexpected error: {:?}", other),
    }
}

#[test]
fn browse_url_percent_encodes_token_fields() {
    let page1 = first_page(&[], Some(("a b&c", "t+u/v")));
    let page2 = continuation_page(&[], None);
    let mut fetch =
        ScriptedFetch::new(vec![Some((200, page1.as_str())), Some((200, page2.as_str()))]);
    let mut crawler = YtUploadsCrawler::channel("UCx");

    assert!(drive(&mut crawler, &mut fetch).is_none());
    assert_eq!(fetch.calls, 2);
    assert_eq!(
        fetch.urls[1],
        "https://www.youtube.com/browse_ajax?ctoken=a%20b%26c&itct=t%2Bu%2Fv"
    );
}

#[test]
fn title_falls_back_to_simple_text() {
    let simple = "{\"gridVideoRenderer\": {\"videoId\": \"s1\", \
                  \"title\": {\"simpleText\": \"Plain\"}}}"
        .to_string();
    let page = first_page(&[simple], None);
    let mut fetch = ScriptedFetch::new(vec![Some((200, page.as_str()))]);
    let mut crawler = YtUploadsCrawler::channel("UCx");

    let one = drive(&mut crawler, &mut fetch).expect("entry expected");
    assert_eq!(one.title, "Plain");
    assert_eq!(one.thumbnail, "");
}

#[test]
fn server_error_status_also_falls_back() {
    let page = first_page(&[item("z1", "Z")], None);
    let mut fetch = ScriptedFetch::new(vec![Some((500, "oops")), Some((200, page.as_str()))]);
    let mut crawler = YtUploadsCrawler::channel("UCx");

    let one = drive(&mut crawler, &mut fetch).expect("entry expected");
    assert_eq!(one.id, "z1");
    assert_eq!(fetch.calls, 2);
    assert!(crawler.error().is_none());
}

#[test]
fn continuation_without_tracking_param_ends_the_crawl() {
    // A continuation object that lacks one of its two opaque fields carries no
    // usable token: the crawl ends normally after the first page.
    let page = "[null, {\"response\": {\"contents\": {\"twoColumnBrowseResultsRenderer\": \
                {\"tabs\": [null, {\"tabRenderer\": {\"content\": {\"sectionListRenderer\": \
                {\"contents\": [{\"itemSectionRenderer\": {\"contents\": \
                [{\"gridRenderer\": {\"items\": [], \"continuations\": \
                [{\"nextContinuationData\": {\"continuation\": \"C1\"}}]}}]}}]}}}}]}}}}]";
    let mut fetch = ScriptedFetch::new(vec![Some((200, page))]);
    let mut crawler = YtUploadsCrawler::channel("UCx");

    assert!(drive(&mut crawler, &mut fetch).is_none());
    assert_eq!(fetch.calls, 1);
    assert!(crawler.error().is_none());
}
