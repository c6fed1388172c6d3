//! Errors of the prediction market API.

use vstd::prelude::*;
use crate::common::{error_message, read_error_message};

verus! {

/// Errors that can occur when interacting with the API.
#[derive(Debug)]
pub enum DflowPredictionApiError {
    /// HTTP request failed
    RequestFailed(reqwest::Error),
    /// API returned an error response
    ApiError { status_code: u16, message: String },
    /// Failed to parse response body
    ParseError(String),
    /// Invalid parameter provided
    InvalidParameter(String),
    /// Resource not found
    NotFound(String),
    /// Authentication failed
    Unauthorized,
    /// Rate limit exceeded
    RateLimited,
}

/// [`DflowPredictionApiError`] as the contracts see it: strings as sequences of characters.
pub enum DflowPredictionApiErrorView {
    RequestFailed(reqwest::Error),
    ApiError { status_code: u16, message: Seq<char> },
    ParseError(Seq<char>),
    InvalidParameter(Seq<char>),
    NotFound(Seq<char>),
    Unauthorized,
    RateLimited,
}

impl DeepView for DflowPredictionApiError {
    type V = DflowPredictionApiErrorView;

    open spec fn deep_view(&self) -> DflowPredictionApiErrorView {
        match self {
            DflowPredictionApiError::RequestFailed(error) => DflowPredictionApiErrorView::RequestFailed(*error),
            DflowPredictionApiError::ApiError { status_code, message } => DflowPredictionApiErrorView::ApiError {
                status_code: *status_code,
                message: message@,
            },
            DflowPredictionApiError::ParseError(message) => DflowPredictionApiErrorView::ParseError(message@),
            DflowPredictionApiError::InvalidParameter(message) => DflowPredictionApiErrorView::InvalidParameter(message@),
            DflowPredictionApiError::NotFound(message) => DflowPredictionApiErrorView::NotFound(message@),
            DflowPredictionApiError::Unauthorized => DflowPredictionApiErrorView::Unauthorized,
            DflowPredictionApiError::RateLimited => DflowPredictionApiErrorView::RateLimited,
        }
    }
}

/// API error response body structure
#[derive(Debug)]
pub struct ApiErrorResponse {
    pub error: Option<String>,
    pub message: Option<String>,
    pub details: Option<String>,
}

impl DflowPredictionApiErrorView {
    /// The error that a response with this status and body stands for: 401 is
    /// `Unauthorized`, 404 is `NotFound` with the body, 429 is `RateLimited`, and
    /// every other status is `ApiError` with the message that the body carries.
    pub open spec fn from_response(status_code: u16, body: Seq<char>) -> DflowPredictionApiErrorView {
        if status_code == 401 {
            DflowPredictionApiErrorView::Unauthorized
        } else if status_code == 404 {
            DflowPredictionApiErrorView::NotFound(body)
        } else if status_code == 429 {
            DflowPredictionApiErrorView::RateLimited
        } else {
            DflowPredictionApiErrorView::ApiError { status_code, message: error_message(body) }
        }
    }
}

impl DflowPredictionApiError {
    /// Create an API error from status code and response body
    pub fn from_response(status_code: u16, body: &str) -> (error: Self)
        ensures
            error.deep_view() == DflowPredictionApiErrorView::from_response(status_code, body@),
    {
        if status_code == 401 {
            DflowPredictionApiError::Unauthorized
        } else if status_code == 404 {
            DflowPredictionApiError::NotFound(body.to_owned())
        } else if status_code == 429 {
            DflowPredictionApiError::RateLimited
        } else {
            DflowPredictionApiError::ApiError { status_code, message: read_error_message(body) }
        }
    }
}

} // verus!
