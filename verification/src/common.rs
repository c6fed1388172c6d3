//! Common utilities and types shared across the API clients.

use vstd::prelude::*;
use vstd::string::StringExecFns;
use crate::text::{bool_to_string, bool_word, decimal, i64_to_string};
use crate::json::{
    json_object_members, object_members, optional_string_member, read_optional_string_member,
};

verus! {

/// `reqwest::Error`, the error of an HTTP request. The library only carries it:
/// nothing is claimed of what it holds.
#[verifier::external_type_specification]
#[verifier::external_body]
pub struct ExTransportError(reqwest::Error);

/// API error response body structure
#[derive(Debug)]
pub struct ApiErrorResponse {
    pub error: Option<String>,
    pub message: Option<String>,
    pub details: Option<String>,
}

/// [`ApiErrorResponse`] as the contracts see it: strings as sequences of characters.
pub struct ApiErrorResponseView {
    pub error: Option<Seq<char>>,
    pub message: Option<Seq<char>>,
    pub details: Option<Seq<char>>,
}

impl DeepView for ApiErrorResponse {
    type V = ApiErrorResponseView;

    open spec fn deep_view(&self) -> ApiErrorResponseView {
        ApiErrorResponseView {
            error: self.error.deep_view(),
            message: self.message.deep_view(),
            details: self.details.deep_view(),
        }
    }
}

impl ApiErrorResponseView {
    /// The error body that the members of a JSON object hold: each of `error`,
    /// `message` and `details` is a string, `null` or missing.
    pub open spec fn from_members(members: Seq<(Seq<char>, Seq<char>)>) -> Option<
        ApiErrorResponseView,
    > {
        match (
            optional_string_member(members, "error"@),
            optional_string_member(members, "message"@),
            optional_string_member(members, "details"@),
        ) {
            (Some(error), Some(message), Some(details)) => Some(
                ApiErrorResponseView { error, message, details },
            ),
            _ => None,
        }
    }

    /// The error body that a JSON text holds.
    pub open spec fn from_json(text: Seq<char>) -> Option<ApiErrorResponseView> {
        match json_object_members(text) {
            Some(members) => Self::from_members(members),
            None => None,
        }
    }
}

impl ApiErrorResponse {
    /// Reads an error body from the members of a JSON object.
    pub fn from_members(members: &Vec<(String, String)>) -> (response: Option<ApiErrorResponse>)
        ensures
            response.deep_view() == ApiErrorResponseView::from_members(members.deep_view()),
    {
        let error = read_optional_string_member(members, "error");
        let message = read_optional_string_member(members, "message");
        let details = read_optional_string_member(members, "details");
        match (error, message, details) {
            (Some(error), Some(message), Some(details)) => Some(
                ApiErrorResponse { error, message, details },
            ),
            _ => None,
        }
    }

    /// Reads an error body; `None` where the text does not hold one.
    pub fn from_json(text: &str) -> (response: Option<ApiErrorResponse>)
        ensures
            response.deep_view() == ApiErrorResponseView::from_json(text@),
    {
        match object_members(text) {
            Some(members) => ApiErrorResponse::from_members(&members),
            None => None,
        }
    }
}

/// The message of an error response: the body's `message`, else its `error`,
/// else the body as it came.
pub open spec fn error_message_from(response: Option<ApiErrorResponseView>, body: Seq<char>) -> Seq<
    char,
> {
    match response {
        Some(r) => match r.message {
            Some(message) => message,
            None => match r.error {
                Some(error) => error,
                None => body,
            },
        },
        None => body,
    }
}

/// The message that an error response with this body carries.
pub open spec fn error_message(body: Seq<char>) -> Seq<char> {
    error_message_from(ApiErrorResponseView::from_json(body), body)
}

/// Picks the message of an error response that was read from `body`.
pub fn choose_error_message(response: Option<ApiErrorResponse>, body: &str) -> (message: String)
    ensures
        message@ == error_message_from(response.deep_view(), body@),
{
    match response {
        Some(r) => match r.message {
            Some(message) => message,
            None => match r.error {
                Some(error) => error,
                None => body.to_owned(),
            },
        },
        None => body.to_owned(),
    }
}

/// Reads the message out of the body of an error response.
pub fn read_error_message(body: &str) -> (message: String)
    ensures
        message@ == error_message(body@),
{
    choose_error_message(ApiErrorResponse::from_json(body), body)
}

/// Errors that can occur when interacting with the APIs.
#[derive(Debug)]
pub enum DflowApiError {
    /// HTTP request failed
    RequestFailed(reqwest::Error),
    /// API returned an error response
    ApiError { status_code: u16, message: String },
    /// Failed to parse response body
    ParseError(String),
    /// Invalid parameter provided
    InvalidParameter(String),
    /// Resource not found
    NotFound(String),
    /// Authentication failed
    Unauthorized,
    /// Rate limit exceeded
    RateLimited,
    /// No route found for the swap
    NoRouteFound(String),
}

/// [`DflowApiError`] as the contracts see it: strings as sequences of characters.
pub enum DflowApiErrorView {
    RequestFailed(reqwest::Error),
    ApiError { status_code: u16, message: Seq<char> },
    ParseError(Seq<char>),
    InvalidParameter(Seq<char>),
    NotFound(Seq<char>),
    Unauthorized,
    RateLimited,
    NoRouteFound(Seq<char>),
}

impl DeepView for DflowApiError {
    type V = DflowApiErrorView;

    open spec fn deep_view(&self) -> DflowApiErrorView {
        match self {
            DflowApiError::RequestFailed(error) => DflowApiErrorView::RequestFailed(*error),
            DflowApiError::ApiError { status_code, message } => DflowApiErrorView::ApiError {
                status_code: *status_code,
                message: message@,
            },
            DflowApiError::ParseError(message) => DflowApiErrorView::ParseError(message@),
            DflowApiError::InvalidParameter(message) => DflowApiErrorView::InvalidParameter(
                message@,
            ),
            DflowApiError::NotFound(message) => DflowApiErrorView::NotFound(message@),
            DflowApiError::Unauthorized => DflowApiErrorView::Unauthorized,
            DflowApiError::RateLimited => DflowApiErrorView::RateLimited,
            DflowApiError::NoRouteFound(message) => DflowApiErrorView::NoRouteFound(message@),
        }
    }
}

impl DflowApiErrorView {
    /// The error that a response with this status and body stands for.
    pub open spec fn from_response(status_code: u16, body: Seq<char>) -> DflowApiErrorView {
        if status_code == 401 {
            DflowApiErrorView::Unauthorized
        } else if status_code == 404 {
            DflowApiErrorView::NotFound(body)
        } else if status_code == 429 {
            DflowApiErrorView::RateLimited
        } else {
            DflowApiErrorView::ApiError { status_code, message: error_message(body) }
        }
    }
}

impl DflowApiError {
    /// Create an API error from status code and response body
    pub fn from_response(status_code: u16, body: &str) -> (error: Self)
        ensures
            error.deep_view() == DflowApiErrorView::from_response(status_code, body@),
    {
        if status_code == 401 {
            DflowApiError::Unauthorized
        } else if status_code == 404 {
            DflowApiError::NotFound(body.to_owned())
        } else if status_code == 429 {
            DflowApiError::RateLimited
        } else {
            DflowApiError::ApiError { status_code, message: read_error_message(body) }
        }
    }
}

/// The `key=value` pairs of the parameters that have a value, in their order.
pub open spec fn query_parts(params: Seq<(Seq<char>, Option<Seq<char>>)>) -> Seq<Seq<char>>
    decreases params.len(),
{
    if params.len() == 0 {
        Seq::<Seq<char>>::empty()
    } else {
        match params.last().1 {
            Some(value) => query_parts(params.drop_last()).push(params.last().0 + "="@ + value),
            None => query_parts(params.drop_last()),
        }
    }
}

/// The parts, with the separator between one and the next.
pub open spec fn joined(parts: Seq<Seq<char>>, separator: Seq<char>) -> Seq<char>
    decreases parts.len(),
{
    if parts.len() == 0 {
        Seq::<char>::empty()
    } else if parts.len() == 1 {
        parts[0]
    } else {
        joined(parts.drop_last(), separator) + separator + parts.last()
    }
}

/// The query string of the parameters: empty where none has a value, else `?`
/// and the pairs joined by `&`.
pub open spec fn query_string(params: Seq<(Seq<char>, Option<Seq<char>>)>) -> Seq<char> {
    let parts = query_parts(params);
    if parts.len() == 0 {
        Seq::<char>::empty()
    } else {
        "?"@ + joined(parts, "&"@)
    }
}

/// Build query string from optional parameters.
///
/// Returns a query string starting with `?` if any parameter has a value, or the
/// empty string.
pub fn build_query_string(params: &[(&str, Option<String>)]) -> (query: String)
    ensures
        query@ == query_string(params.deep_view()),
{
    let ghost all = params.deep_view();
    let mut query = String::new();
    let mut any = false;
    let mut i: usize = 0;
    assert(all.take(0) =~= Seq::<(Seq<char>, Option<Seq<char>>)>::empty());
    while i < params.len()
        invariant
            i <= params.len(),
            all == params.deep_view(),
            any == (query_parts(all.take(i as int)).len() > 0),
            query@ == query_string(all.take(i as int)),
        decreases params.len() - i,
    {
        let ghost before = all.take(i as int);
        let ghost upto = all.take(i + 1);
        assert(upto.drop_last() =~= before);
        assert(upto.last() == all[i as int]);
        assert(all[i as int] == params@[i as int].deep_view());
        let key: &str = params[i].0;
        match &params[i].1 {
            Some(value) => {
                if any {
                    query.append("&");
                } else {
                    query.append("?");
                }
                query.append(key);
                query.append("=");
                query.append(value.as_str());
                any = true;
                proof {
                    let parts = query_parts(before);
                    let part = key@ + "="@ + value@;
                    assert(query_parts(upto) == parts.push(part));
                    assert(parts.push(part).drop_last() =~= parts);
                    assert(query@ =~= query_string(upto));
                }
            },
            None => {},
        }
        i = i + 1;
    }
    assert(all.take(i as int) =~= all);
    query
}

/// Joins the texts, with the separator between one and the next.
pub fn join_texts(items: &[String], separator: &str) -> (text: String)
    ensures
        text@ == joined(items.deep_view(), separator@),
{
    let ghost all = items.deep_view();
    let mut text = String::new();
    let mut i: usize = 0;
    assert(all.take(0) =~= Seq::<Seq<char>>::empty());
    while i < items.len()
        invariant
            i <= items.len(),
            all == items.deep_view(),
            text@ == joined(all.take(i as int), separator@),
        decreases items.len() - i,
    {
        let ghost upto = all.take(i + 1);
        assert(upto.drop_last() =~= all.take(i as int));
        assert(upto.last() == items@[i as int]@);
        if i > 0 {
            text.append(separator);
        }
        text.append(items[i].as_str());
        assert(text@ =~= joined(upto, separator@));
        i = i + 1;
    }
    assert(all.take(i as int) =~= all);
    text
}

/// A flag as a query value.
pub open spec fn flag_value(value: Option<bool>) -> Option<Seq<char>> {
    match value {
        Some(v) => Some(bool_word(v)),
        None => None,
    }
}

/// A number as a query value.
pub open spec fn number_value(value: Option<int>) -> Option<Seq<char>> {
    match value {
        Some(v) => Some(decimal(v)),
        None => None,
    }
}

/// A number, seen as a mathematical integer.
pub open spec fn as_int32(value: Option<i32>) -> Option<int> {
    match value {
        Some(v) => Some(v as int),
        None => None,
    }
}

/// A number, seen as a mathematical integer.
pub open spec fn as_int64(value: Option<i64>) -> Option<int> {
    match value {
        Some(v) => Some(v as int),
        None => None,
    }
}

/// Writes a text that may be missing as a query value.
pub fn text_value(value: &Option<String>) -> (text: Option<String>)
    ensures
        text.deep_view() == value.deep_view(),
{
    match value {
        Some(v) => Some(v.clone()),
        None => None,
    }
}

/// Writes a flag that may be missing as a query value.
pub fn write_flag(value: Option<bool>) -> (text: Option<String>)
    ensures
        text.deep_view() == flag_value(value),
{
    match value {
        Some(v) => Some(bool_to_string(v)),
        None => None,
    }
}

/// Writes a number that may be missing as a query value.
pub fn write_i32(value: Option<i32>) -> (text: Option<String>)
    ensures
        text.deep_view() == number_value(as_int32(value)),
{
    match value {
        Some(v) => Some(i64_to_string(v as i64)),
        None => None,
    }
}

/// Writes a number that may be missing as a query value.
pub fn write_i64(value: Option<i64>) -> (text: Option<String>)
    ensures
        text.deep_view() == number_value(as_int64(value)),
{
    match value {
        Some(v) => Some(i64_to_string(v)),
        None => None,
    }
}

/// The address of an endpoint: the base URL, then the endpoint's path and query.
pub fn endpoint_url(base_url: &str, endpoint: &str) -> (url: String)
    ensures
        url@ == base_url@ + endpoint@,
{
    base_url.to_owned().concat(endpoint)
}

} // verus!
