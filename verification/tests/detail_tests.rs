use yt_chanvids::detail::{
    extract_channel_detail, extract_video_detail, find_player_response, parse_seconds,
    player_response_json,
};
use yt_chanvids::{parse_json_data, YtChannelDetailScraper, YtVideoDetailScraper};

#[test]
fn about_page_urls() {
    let scraper = YtChannelDetailScraper::from_id("UCabc");
    assert_eq!(
        scraper.channel_about_url(),
        "https://youtube.com/channel/UCabc/about?flow=grid&view=0&pbj=1"
    );
    assert_eq!(
        scraper.user_about_url(),
        "https://youtube.com/user/UCabc/about?flow=grid&view=0&pbj=1"
    );
}

#[test]
fn video_info_url() {
    let scraper = YtVideoDetailScraper::from_id("vid42");
    assert_eq!(
        scraper.video_info_url(),
        "https://www.youtube.com/get_video_info?video_id=vid42"
    );
}

#[test]
fn channel_detail_is_extracted() {
    let body = "[null, {\"response\": {\"metadata\": {\"channelMetadataRenderer\": \
                {\"title\": \"A Channel\", \"description\": \"About it\", \
                \"avatar\": {\"thumbnails\": [{\"url\": \"https://i.example/a.png\"}]}}}}}]";
    let doc = parse_json_data(body).expect("valid json");
    let detail = extract_channel_detail(&doc).expect("detail expected");
    assert_eq!(detail.title, "A Channel");
    assert_eq!(detail.description, "About it");
    assert_eq!(detail.author_thumbnail, "https://i.example/a.png");
}

#[test]
fn channel_detail_missing_field_is_none() {
    let body = "[null, {\"response\": {\"metadata\": {\"channelMetadataRenderer\": \
                {\"title\": \"A Channel\"}}}}]";
    let doc = parse_json_data(body).expect("valid json");
    assert!(extract_channel_detail(&doc).is_none());
}

#[test]
fn player_response_chunk_is_found() {
    assert_eq!(
        find_player_response("a=1&player_response=XYZ&b=2").as_deref(),
        Some("XYZ")
    );
    assert_eq!(
        find_player_response("player_response=head").as_deref(),
        Some("head")
    );
    assert_eq!(
        find_player_response("a=1&player_response=tail").as_deref(),
        Some("tail")
    );
    assert!(find_player_response("a=1&b=2").is_none());
    // A key that merely ends in the name is not the chunk.
    assert!(find_player_response("xplayer_response=Y").is_none());
}

#[test]
fn player_json_is_decoded() {
    let text = "foo=1&player_response=%7B%22a%22%3A+1%7D&bar=2";
    assert_eq!(player_response_json(text).as_deref(), Some("{\"a\": 1}"));
}

#[test]
fn seconds_are_parsed_exactly() {
    assert_eq!(parse_seconds("0"), Some(0));
    assert_eq!(parse_seconds("212"), Some(212));
    assert_eq!(parse_seconds("0000123"), Some(123));
    assert_eq!(parse_seconds("2147483647"), Some(2147483647));
    assert_eq!(parse_seconds("2147483648"), None);
    assert_eq!(parse_seconds("12a"), None);
    assert_eq!(parse_seconds(""), None);
    assert_eq!(parse_seconds("-5"), None);
}

#[test]
fn video_detail_is_extracted_and_decoded() {
    let body = "{\"videoDetails\": {\"title\": \"Hello%20World\", \
                \"shortDescription\": \"Line1%0ALine2\", \"lengthSeconds\": \"212\"}, \
                \"microformat\": {\"playerMicroformatRenderer\": \
                {\"uploadDate\": \"2020-01-02\"}}}";
    let doc = parse_json_data(body).expect("valid json");
    let detail = extract_video_detail(&doc).expect("detail expected");
    assert_eq!(detail.title, "Hello World");
    assert_eq!(detail.description, "Line1\nLine2");
    assert_eq!(detail.duration_seconds, 212);
    assert_eq!(detail.publish_date, "2020-01-02");
}

#[test]
fn video_detail_with_bad_duration_is_none() {
    let body = "{\"videoDetails\": {\"title\": \"T\", \"shortDescription\": \"D\", \
                \"lengthSeconds\": \"twelve\"}, \"microformat\": \
                {\"playerMicroformatRenderer\": {\"uploadDate\": \"2020-01-02\"}}}";
    let doc = parse_json_data(body).expect("valid json");
    assert!(extract_video_detail(&doc).is_none());
}
