//! Errors of the swap API.

use vstd::prelude::*;
use crate::common::{error_message, read_error_message};

verus! {

/// Errors that can occur when interacting with the API.
#[derive(Debug)]
pub enum DflowSwapApiError {
    /// HTTP request failed
    RequestFailed(reqwest::Error),
    /// API returned an error response
    ApiError { status_code: u16, message: String },
    /// Failed to parse response body
    ParseError(String),
    /// Invalid parameter provided
    InvalidParameter(String),
    /// Resource not found
    NotFound(String),
    /// Authentication failed
    Unauthorized,
    /// Rate limit exceeded
    RateLimited,
    /// No route found for the swap
    NoRouteFound(String),
}

/// [`DflowSwapApiError`] as the contracts see it: strings as sequences of characters.
pub enum DflowSwapApiErrorView {
    RequestFailed(reqwest::Error),
    ApiError { status_code: u16, message: Seq<char> },
    ParseError(Seq<char>),
    InvalidParameter(Seq<char>),
    NotFound(Seq<char>),
    Unauthorized,
    RateLimited,
    NoRouteFound(Seq<char>),
}

impl DeepView for DflowSwapApiError {
    type V = DflowSwapApiErrorView;

    open spec fn deep_view(&self) -> DflowSwapApiErrorView {
        match self {
            DflowSwapApiError::RequestFailed(error) => DflowSwapApiErrorView::RequestFailed(*error),
            DflowSwapApiError::ApiError { status_code, message } => DflowSwapApiErrorView::ApiError {
                status_code: *status_code,
                message: message@,
            },
            DflowSwapApiError::ParseError(message) => DflowSwapApiErrorView::ParseError(message@),
            DflowSwapApiError::InvalidParameter(message) => DflowSwapApiErrorView::InvalidParameter(message@),
            DflowSwapApiError::NotFound(message) => DflowSwapApiErrorView::NotFound(message@),
            DflowSwapApiError::Unauthorized => DflowSwapApiErrorView::Unauthorized,
            DflowSwapApiError::RateLimited => DflowSwapApiErrorView::RateLimited,
            DflowSwapApiError::NoRouteFound(message) => DflowSwapApiErrorView::NoRouteFound(message@),
        }
    }
}

/// API error response body structure
#[derive(Debug)]
pub struct ApiErrorResponse {
    pub error: Option<String>,
    pub message: Option<String>,
    pub details: Option<String>,
}

impl DflowSwapApiErrorView {
    /// The error that a response with this status and body stands for: 401 is
    /// `Unauthorized`, 404 is `NotFound` with the body, 429 is `RateLimited`, and
    /// every other status is `ApiError` with the message that the body carries.
    pub open spec fn from_response(status_code: u16, body: Seq<char>) -> DflowSwapApiErrorView {
        if status_code == 401 {
            DflowSwapApiErrorView::Unauthorized
        } else if status_code == 404 {
            DflowSwapApiErrorView::NotFound(body)
        } else if status_code == 429 {
            DflowSwapApiErrorView::RateLimited
        } else {
            DflowSwapApiErrorView::ApiError { status_code, message: error_message(body) }
        }
    }
}

impl DflowSwapApiError {
    /// Create an API error from status code and response body
    pub fn from_response(status_code: u16, body: &str) -> (error: Self)
        ensures
            error.deep_view() == DflowSwapApiErrorView::from_response(status_code, body@),
    {
        if status_code == 401 {
            DflowSwapApiError::Unauthorized
        } else if status_code == 404 {
            DflowSwapApiError::NotFound(body.to_owned())
        } else if status_code == 429 {
            DflowSwapApiError::RateLimited
        } else {
            DflowSwapApiError::ApiError { status_code, message: read_error_message(body) }
        }
    }
}

} // verus!
