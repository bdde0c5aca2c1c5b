//! The library's error type.

use vstd::prelude::*;
use vstd::string::*;
use crate::text::{append_decimal, decimal_digits};

verus! {

/// What can go wrong, each failure with its context.
#[derive(Debug)]
pub enum AppError {
    /// A configuration value is missing or invalid.
    Config(String),
    /// A required environment variable was not found.
    MissingEnvVar(String),
    /// Capturing the screen failed.
    ScreenCapture(String),
    /// No monitor has the requested index.
    ScreenNotFound(usize),
    /// Cropping or encoding an image failed.
    ImageProcessing(String),
    /// The selection is empty once mapped onto the image.
    EmptySelection,
    /// The completion service reported a failure.
    GeminiApi(String),
    /// The completion service asked to slow down.
    RateLimited,
    /// The overlay could not be shown or run.
    Ui(String),
    /// An input or output operation failed; the payload is its description.
    Io(String),
    /// Reading or writing JSON failed; the payload is its description.
    Json(String),
    /// Anything else.
    Unknown(String),
}

/// The mathematical value of an [`AppError`].
pub enum AppErrorView {
    Config(Seq<char>),
    MissingEnvVar(Seq<char>),
    ScreenCapture(Seq<char>),
    ScreenNotFound(usize),
    ImageProcessing(Seq<char>),
    EmptySelection,
    GeminiApi(Seq<char>),
    RateLimited,
    Ui(Seq<char>),
    Io(Seq<char>),
    Json(Seq<char>),
    Unknown(Seq<char>),
}

impl View for AppError {
    type V = AppErrorView;

    open spec fn view(&self) -> AppErrorView {
        match self {
            AppError::Config(s) => AppErrorView::Config(s@),
            AppError::MissingEnvVar(s) => AppErrorView::MissingEnvVar(s@),
            AppError::ScreenCapture(s) => AppErrorView::ScreenCapture(s@),
            AppError::ScreenNotFound(i) => AppErrorView::ScreenNotFound(*i),
            AppError::ImageProcessing(s) => AppErrorView::ImageProcessing(s@),
            AppError::EmptySelection => AppErrorView::EmptySelection,
            AppError::GeminiApi(s) => AppErrorView::GeminiApi(s@),
            AppError::RateLimited => AppErrorView::RateLimited,
            AppError::Ui(s) => AppErrorView::Ui(s@),
            AppError::Io(s) => AppErrorView::Io(s@),
            AppError::Json(s) => AppErrorView::Json(s@),
            AppError::Unknown(s) => AppErrorView::Unknown(s@),
        }
    }
}

impl AppErrorView {
    /// The text shown for an error.
    pub open spec fn message(self) -> Seq<char> {
        match self {
            AppErrorView::Config(s) => "Configuration error: "@ + s,
            AppErrorView::MissingEnvVar(s) => "Missing required environment variable: "@ + s,
            AppErrorView::ScreenCapture(s) => "Screen capture failed: "@ + s,
            AppErrorView::ScreenNotFound(i) => "Screen not found: index "@ + decimal_digits(
                i as nat,
            ),
            AppErrorView::ImageProcessing(s) => "Image processing failed: "@ + s,
            AppErrorView::EmptySelection => "Selection area is empty or invalid"@,
            AppErrorView::GeminiApi(s) => "Gemini API error: "@ + s,
            AppErrorView::RateLimited => "Rate limited by Gemini API, please retry later"@,
            AppErrorView::Ui(s) => "UI error: "@ + s,
            AppErrorView::Io(s) => "IO error: "@ + s,
            AppErrorView::Json(s) => "JSON error: "@ + s,
            AppErrorView::Unknown(s) => "Unknown error: "@ + s,
        }
    }
}

fn prefixed(prefix: &str, detail: &str) -> (s: String)
    ensures
        s@ == prefix@ + detail@,
{
    prefix.to_owned().concat(detail)
}

impl AppError {
    /// A configuration error with the given description.
    pub fn config(msg: &str) -> (e: AppError)
        ensures
            e@ == AppErrorView::Config(msg@),
    {
        AppError::Config(msg.to_owned())
    }

    /// A screen capture error with the given description.
    pub fn capture(msg: &str) -> (e: AppError)
        ensures
            e@ == AppErrorView::ScreenCapture(msg@),
    {
        AppError::ScreenCapture(msg.to_owned())
    }

    /// An image processing error with the given description.
    pub fn image(msg: &str) -> (e: AppError)
        ensures
            e@ == AppErrorView::ImageProcessing(msg@),
    {
        AppError::ImageProcessing(msg.to_owned())
    }

    /// A completion service error with the given description.
    pub fn gemini(msg: &str) -> (e: AppError)
        ensures
            e@ == AppErrorView::GeminiApi(msg@),
    {
        AppError::GeminiApi(msg.to_owned())
    }

    /// An overlay error with the given description.
    pub fn ui(msg: &str) -> (e: AppError)
        ensures
            e@ == AppErrorView::Ui(msg@),
    {
        AppError::Ui(msg.to_owned())
    }

    /// The text shown for this error.
    pub fn message(&self) -> (m: String)
        ensures
            m@ == self@.message(),
    {
        match self {
            AppError::Config(s) => prefixed("Configuration error: ", s.as_str()),
            AppError::MissingEnvVar(s) => prefixed(
                "Missing required environment variable: ",
                s.as_str(),
            ),
            AppError::ScreenCapture(s) => prefixed("Screen capture failed: ", s.as_str()),
            AppError::ScreenNotFound(i) => {
                let mut m = "Screen not found: index ".to_owned();
                append_decimal(&mut m, *i as u64);
                m
            },
            AppError::ImageProcessing(s) => prefixed("Image processing failed: ", s.as_str()),
            AppError::EmptySelection => "Selection area is empty or invalid".to_owned(),
            AppError::GeminiApi(s) => prefixed("Gemini API error: ", s.as_str()),
            AppError::RateLimited => "Rate limited by Gemini API, please retry later".to_owned(),
            AppError::Ui(s) => prefixed("UI error: ", s.as_str()),
            AppError::Io(s) => prefixed("IO error: ", s.as_str()),
            AppError::Json(s) => prefixed("JSON error: ", s.as_str()),
            AppError::Unknown(s) => prefixed("Unknown error: ", s.as_str()),
        }
    }
}

} // verus!
