//! The ways a request can fail, and how a failure is reported.

use vstd::prelude::*;
use vstd::string::*;

verus! {

/// Why a request was not answered with a thumbnail.
#[derive(Debug, Clone, PartialEq, Eq)]
pub enum AppError {
    /// The overall deadline passed before the page was rendered.
    Timeout,
    /// The request itself is unusable.
    BadRequest(String),
    /// The renderer gave up after its last attempt.
    ThumbnailGeneration(String),
    /// The capture could not be decoded, resized or encoded.
    ImageProcessing(String),
    /// The cache or another part of the service failed.
    Internal(String),
}

/// An [`AppError`] with its message as a sequence of characters.
pub enum ErrorView {
    Timeout,
    BadRequest(Seq<char>),
    ThumbnailGeneration(Seq<char>),
    ImageProcessing(Seq<char>),
    Internal(Seq<char>),
}

impl View for AppError {
    type V = ErrorView;

    open spec fn view(&self) -> ErrorView {
        match self {
            AppError::Timeout => ErrorView::Timeout,
            AppError::BadRequest(m) => ErrorView::BadRequest(m@),
            AppError::ThumbnailGeneration(m) => ErrorView::ThumbnailGeneration(m@),
            AppError::ImageProcessing(m) => ErrorView::ImageProcessing(m@),
            AppError::Internal(m) => ErrorView::Internal(m@),
        }
    }
}

impl ErrorView {
    /// The status class a failure is reported under: 400 for unusable input,
    /// 408 for the deadline, 500 for everything else.
    pub open spec fn status(self) -> u16 {
        match self {
            ErrorView::Timeout => 408,
            ErrorView::BadRequest(_) => 400,
            _ => 500,
        }
    }

    /// The text sent to the caller in the error body.
    pub open spec fn reply_text(self) -> Seq<char> {
        match self {
            ErrorView::Timeout => "Thumbnail generation timed out"@,
            ErrorView::BadRequest(m) => m,
            ErrorView::ThumbnailGeneration(m) => m,
            ErrorView::ImageProcessing(m) => m,
            ErrorView::Internal(m) => m,
        }
    }

    /// The text of the failure as it is written to a log.
    pub open spec fn log_text(self) -> Seq<char> {
        match self {
            ErrorView::Timeout => "Timeout"@,
            ErrorView::BadRequest(m) => "Bad request: "@ + m,
            ErrorView::ThumbnailGeneration(m) => "Thumbnail generation failed: "@ + m,
            ErrorView::ImageProcessing(m) => "Image processing failed: "@ + m,
            ErrorView::Internal(m) => "Internal error: "@ + m,
        }
    }
}

impl AppError {
    /// A failure of the service itself, carrying the text of its cause.
    pub fn internal(cause: String) -> (error: AppError)
        ensures
            error@ == ErrorView::Internal(cause@),
    {
        AppError::Internal(cause)
    }

    /// The status code of the reply that reports this failure.
    pub fn status_code(&self) -> (code: u16)
        ensures
            code == self@.status(),
    {
        match self {
            AppError::Timeout => 408,
            AppError::BadRequest(_) => 400,
            AppError::ThumbnailGeneration(_) => 500,
            AppError::ImageProcessing(_) => 500,
            AppError::Internal(_) => 500,
        }
    }

    /// The message placed in the body of the reply.
    pub fn response_message(&self) -> (text: String)
        ensures
            text@ == self@.reply_text(),
    {
        match self {
            AppError::Timeout => String::from_str("Thumbnail generation timed out"),
            AppError::BadRequest(m) => m.clone(),
            AppError::ThumbnailGeneration(m) => m.clone(),
            AppError::ImageProcessing(m) => m.clone(),
            AppError::Internal(m) => m.clone(),
        }
    }

    /// The failure in words, with the kind of failure in front.
    pub fn describe(&self) -> (text: String)
        ensures
            text@ == self@.log_text(),
    {
        match self {
            AppError::Timeout => String::from_str("Timeout"),
            AppError::BadRequest(m) => String::from_str("Bad request: ").concat(m.as_str()),
            AppError::ThumbnailGeneration(m) => String::from_str(
                "Thumbnail generation failed: ",
            ).concat(m.as_str()),
            AppError::ImageProcessing(m) => String::from_str("Image processing failed: ").concat(
                m.as_str(),
            ),
            AppError::Internal(m) => String::from_str("Internal error: ").concat(m.as_str()),
        }
    }
}

} // verus!
