//! The error taxonomy of the crawl. Every kind is terminal to the crawl it
//! occurs in; none is retried. A caller reads the recorded error to tell
//! "ran out of videos" apart from "stopped because of a failure".

use vstd::prelude::*;

verus! {

/// Why a response body could not be used as JSON data.
#[derive(Debug)]
pub enum ParseJsonDataError {
    /// The body was not valid JSON, and not recognizable HTML either.
    Parse,
    /// The server answered with an HTML document where JSON was expected.
    /// The full body is preserved for diagnostics.
    Html(String),
}

/// The abstract value of a [`ParseJsonDataError`].
pub enum ParseJsonDataErrorView {
    Parse,
    Html(Seq<char>),
}

impl View for ParseJsonDataError {
    type V = ParseJsonDataErrorView;

    open spec fn view(&self) -> ParseJsonDataErrorView {
        match self {
            ParseJsonDataError::Parse => ParseJsonDataErrorView::Parse,
            ParseJsonDataError::Html(body) => ParseJsonDataErrorView::Html(body@),
        }
    }
}

/// Why a page request yielded no data.
#[derive(Debug)]
pub enum RequestError {
    /// The request could not be completed at the transport level.
    HTTPError,
    /// The response arrived but its body was unusable.
    ParseJsonDataError(ParseJsonDataError),
    /// No candidate endpoint answered the identifier with success.
    NotFound,
}

/// The abstract value of a [`RequestError`].
pub enum RequestErrorView {
    HTTPError,
    ParseJsonDataError(ParseJsonDataErrorView),
    NotFound,
}

impl View for RequestError {
    type V = RequestErrorView;

    open spec fn view(&self) -> RequestErrorView {
        match self {
            RequestError::HTTPError => RequestErrorView::HTTPError,
            RequestError::ParseJsonDataError(e) => RequestErrorView::ParseJsonDataError(e@),
            RequestError::NotFound => RequestErrorView::NotFound,
        }
    }
}

/// Why the crawl stopped before the uploads ran out.
#[derive(Debug)]
pub enum FetchLinksError {
    /// A page could not be fetched or decoded.
    RequestError(RequestError),
    /// The identifier resolved, but the expected uploads listing is absent.
    MissingUploadsPage,
}

/// The abstract value of a [`FetchLinksError`].
pub enum FetchLinksErrorView {
    RequestError(RequestErrorView),
    MissingUploadsPage,
}

impl View for FetchLinksError {
    type V = FetchLinksErrorView;

    open spec fn view(&self) -> FetchLinksErrorView {
        match self {
            FetchLinksError::RequestError(e) => FetchLinksErrorView::RequestError(e@),
            FetchLinksError::MissingUploadsPage => FetchLinksErrorView::MissingUploadsPage,
        }
    }
}

impl From<RequestError> for FetchLinksError {
    fn from(err: RequestError) -> (r: FetchLinksError) {
        FetchLinksError::RequestError(err)
    }
}

impl vstd::std_specs::convert::FromSpecImpl<RequestError> for FetchLinksError {
    open spec fn obeys_from_spec() -> bool {
        true
    }

    open spec fn from_spec(err: RequestError) -> FetchLinksError {
        FetchLinksError::RequestError(err)
    }
}

impl From<ParseJsonDataError> for RequestError {
    fn from(err: ParseJsonDataError) -> (r: RequestError) {
        RequestError::ParseJsonDataError(err)
    }
}

impl vstd::std_specs::convert::FromSpecImpl<ParseJsonDataError> for RequestError {
    open spec fn obeys_from_spec() -> bool {
        true
    }

    open spec fn from_spec(err: ParseJsonDataError) -> RequestError {
        RequestError::ParseJsonDataError(err)
    }
}

} // verus!
