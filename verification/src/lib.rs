//! A crawler for the uploads listing of a video channel.
//!
//! The crate resolves a channel identifier to candidate endpoint URLs, classifies
//! raw HTTP responses as JSON or HTML, extracts video entries and continuation
//! tokens from the platform's nested JSON documents, and drives a pull-based
//! crawl over pages of uploads. All decisions are made here; performing the
//! actual HTTP requests is left to the caller, who feeds each fetch outcome
//! back into the crawler.

pub mod classify;
pub mod crawler;
pub mod detail;
pub mod errors;
pub mod extract;
pub mod json;
pub mod text;
pub mod urls;

pub use classify::parse_json_data;
pub use crawler::{FetchOutcome, YtUploadsCrawler};
pub use detail::{
    ChannelDetail, VideoDetail, YtChannelDetailScraper, YtVideoDetailScraper,
};
pub use errors::{FetchLinksError, ParseJsonDataError, RequestError};
pub use extract::{ContinuationToken, VideoInfo};
pub use json::JsonValue;
pub use urls::{canonicalize_video_url, make_youtube_video_url};
