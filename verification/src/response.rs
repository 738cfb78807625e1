//! What the service answers.

use crate::entry::{encode_image_text, image_text};
use crate::error::{AppError, ErrorView};
use crate::format::ImageFormat;
use crate::render::Captioned;
use crate::request::{RequestView, ThumbnailRequest};
use vstd::prelude::*;
use vstd::string::*;

verus! {

/// The answer to a request that succeeded.
#[derive(Debug, Clone, PartialEq, Eq)]
pub struct ThumbnailResponse {
    /// The address that was asked for.
    pub url: String,
    /// The encoded thumbnail, as base64 text.
    pub image_data: String,
    /// The media type of the thumbnail.
    pub content_type: String,
    pub title: Option<String>,
    pub description: Option<String>,
    /// Whether the thumbnail came from the cache.
    pub cached: bool,
}

/// A [`ThumbnailResponse`] over plain sequences.
pub struct ResponseView {
    pub url: Seq<char>,
    pub image_data: Seq<char>,
    pub content_type: Seq<char>,
    pub title: Option<Seq<char>>,
    pub description: Option<Seq<char>>,
    pub cached: bool,
}

impl View for ThumbnailResponse {
    type V = ResponseView;

    open spec fn view(&self) -> ResponseView {
        ResponseView {
            url: self.url@,
            image_data: self.image_data@,
            content_type: self.content_type@,
            title: self.title.deep_view(),
            description: self.description.deep_view(),
            cached: self.cached,
        }
    }
}

/// The answer to a liveness probe.
#[derive(Debug, Clone, PartialEq, Eq)]
pub struct HealthResponse {
    pub status: String,
    /// Whether the browser answered the probe.
    pub chrome_available: bool,
}

/// A [`HealthResponse`] over plain sequences.
pub struct HealthView {
    pub status: Seq<char>,
    pub chrome_available: bool,
}

impl View for HealthResponse {
    type V = HealthView;

    open spec fn view(&self) -> HealthView {
        HealthView { status: self.status@, chrome_available: self.chrome_available }
    }
}

/// An answer or a failure, over plain sequences.
pub open spec fn answer_view(answer: Result<ThumbnailResponse, AppError>) -> Result<
    ResponseView,
    ErrorView,
> {
    match answer {
        Ok(response) => Ok(response@),
        Err(e) => Err(e@),
    }
}

/// The answer that carries a thumbnail whose text is already made.
pub open spec fn response_with(
    request: RequestView,
    image_text: Seq<char>,
    title: Option<Seq<char>>,
    description: Option<Seq<char>>,
    cached: bool,
) -> ResponseView {
    ResponseView {
        url: request.url,
        image_data: image_text,
        content_type: request.format.media_type(),
        title,
        description,
        cached,
    }
}

/// The answer to a request, given the thumbnail and its captions: the
/// address and the media type come from the request, the image is sent as
/// text.
pub open spec fn response_for(request: RequestView, entry: Captioned, cached: bool) -> Result<
    ResponseView,
    ErrorView,
> {
    match image_text(entry.image_data) {
        Ok(text) => Ok(response_with(request, text, entry.title, entry.description, cached)),
        Err(e) => Err(e),
    }
}

impl ThumbnailResponse {
    /// Puts an answer together from the image text and the captions.
    pub fn assemble(
        request: &ThumbnailRequest,
        image_text: String,
        title: Option<String>,
        description: Option<String>,
        cached: bool,
    ) -> (response: ThumbnailResponse)
        ensures
            response@ == response_with(
                request@,
                image_text@,
                title.deep_view(),
                description.deep_view(),
                cached,
            ),
    {
        ThumbnailResponse {
            url: String::from_str(request.url()),
            image_data: image_text,
            content_type: String::from_str(request.format().content_type()),
            title,
            description,
            cached,
        }
    }

    /// The answer that carries this thumbnail and these captions.
    pub fn build(
        request: &ThumbnailRequest,
        image_data: &[u8],
        title: Option<String>,
        description: Option<String>,
        cached: bool,
    ) -> (answer: Result<ThumbnailResponse, AppError>)
        ensures
            answer_view(answer) == response_for(
                request@,
                Captioned {
                    image_data: image_data@,
                    title: title.deep_view(),
                    description: description.deep_view(),
                },
                cached,
            ),
    {
        match encode_image_text(image_data) {
            Ok(text) => Ok(ThumbnailResponse::assemble(request, text, title, description, cached)),
            Err(e) => Err(e),
        }
    }
}

impl HealthResponse {
    /// The answer to a liveness probe: the service itself is up whenever it
    /// answers; the browser is reported as the probe found it.
    pub fn report(chrome_available: bool) -> (health: HealthResponse)
        ensures
            health@ == (HealthView { status: "ok"@, chrome_available }),
    {
        HealthResponse { status: String::from_str("ok"), chrome_available }
    }
}

} // verus!
