//! Strict [JSend](https://github.com/omniti-labs/jsend) envelope.
//!
//! [`ApiResponse`](crate::ApiResponse) follows the JSend *convention*
//! (`success` / `data` / `error`); this module provides the letter-of-the-spec
//! spelling with a `"status"` discriminator (`"success"`, `"fail"`, `"error"`)
//! for services that need byte-level JSend compliance.

use vstd::prelude::*;

use crate::error::{ApiError, ApiErrorView};
use crate::response::{ApiResponse, ApiResponseView};

verus! {

/// The model of a [`JSend`] envelope.
pub enum JSendView<T> {
    Success { data: Option<T> },
    Fail { data: Option<T> },
    Error { message: Seq<char>, code: Option<i32>, data: Option<T> },
}

/// The JSend envelope that an [`ApiResponse`] maps onto: success stays
/// success (with its data), anything else becomes a JSend error carrying the
/// API error's message (empty where there is none) and the data.
pub open spec fn jsend_of_response<T>(resp: ApiResponseView<T>) -> JSendView<T> {
    if resp.success {
        JSendView::Success { data: resp.data }
    } else {
        match resp.error {
            Some(err) => JSendView::Error { message: err.message, code: None, data: resp.data },
            None => JSendView::Error { message: Seq::empty(), code: None, data: resp.data },
        }
    }
}

/// The JSend error that an [`ApiError`] maps onto: its message, no code, no data.
pub open spec fn jsend_of_error(err: ApiErrorView) -> JSendView<()> {
    JSendView::Error { message: err.message, code: None, data: None }
}

/// Strict JSend response envelope.
///
/// Serializes with a `"status"` discriminator per the JSend specification:
///
/// - success: `{"status":"success","data":...}`
/// - fail: `{"status":"fail","data":...}`
/// - error: `{"status":"error","message":...,"code"?,"data"?}`
#[derive(Debug, Clone)]
pub enum JSend<T> {
    /// The request succeeded. `data` holds the result.
    Success {
        /// The response payload.
        data: Option<T>,
    },
    /// The request failed (client error). `data` describes what was wrong.
    Fail {
        /// Details about the failure (e.g. validation errors).
        data: Option<T>,
    },
    /// The request errored (server error).
    Error {
        /// Human-readable error message (required by JSend).
        message: String,
        /// Optional numeric error code.
        code: Option<i32>,
        /// Optional payload.
        data: Option<T>,
    },
}

impl<T> View for JSend<T> {
    type V = JSendView<T>;

    open spec fn view(&self) -> JSendView<T> {
        match self {
            JSend::Success { data } => JSendView::Success { data: *data },
            JSend::Fail { data } => JSendView::Fail { data: *data },
            JSend::Error { message, code, data } => JSendView::Error {
                message: message@,
                code: *code,
                data: *data,
            },
        }
    }
}

impl<T> JSend<T> {
    /// Creates a JSend success response.
    pub fn success(data: T) -> (r: Self)
        ensures
            r@ == (JSendView::Success { data: Some(data) }),
    {
        Self::Success { data: Some(data) }
    }

    /// Creates a JSend fail response.
    pub fn fail(data: T) -> (r: Self)
        ensures
            r@ == (JSendView::Fail { data: Some(data) }),
    {
        Self::Fail { data: Some(data) }
    }

    /// Creates a JSend error response with a message.
    pub fn error(message: &str) -> (r: Self)
        ensures
            r@ == (JSendView::<T>::Error { message: message@, code: None, data: None }),
    {
        Self::Error { message: String::from_str(message), code: None, data: None }
    }

    /// Creates a JSend error response with a message and numeric code.
    pub fn error_with_code(message: &str, code: i32) -> (r: Self)
        ensures
            r@ == (JSendView::<T>::Error { message: message@, code: Some(code), data: None }),
    {
        Self::Error { message: String::from_str(message), code: Some(code), data: None }
    }

    /// Returns `true` for [`JSend::Success`].
    pub fn is_success(&self) -> (b: bool)
        ensures
            b == (self@ is Success),
    {
        match self {
            Self::Success { .. } => true,
            _ => false,
        }
    }
}

impl<T> From<ApiResponse<T>> for JSend<T> {
    /// Maps an [`ApiResponse`] onto JSend: success stays success, any error
    /// becomes a JSend error carrying the API error message.
    fn from(resp: ApiResponse<T>) -> (r: Self)
        ensures
            r@ == jsend_of_response(resp@),
    {
        match (resp.success, resp.data, resp.error) {
            (true, data, _) => Self::Success { data },
            (false, data, Some(err)) => Self::Error { message: err.message, code: None, data },
            (false, data, None) => Self::Error { message: String::new(), code: None, data },
        }
    }
}

impl<T> vstd::std_specs::convert::FromSpecImpl<ApiResponse<T>> for JSend<T> {
    /// Where the response is a failure without an error, the conversion makes
    /// a fresh empty message, which no equation on `String` values can name;
    /// so the conversion is not claimed to equal `from_spec`, and its result
    /// is stated over the model instead (`jsend_of_response`).
    open spec fn obeys_from_spec() -> bool {
        false
    }

    open spec fn from_spec(resp: ApiResponse<T>) -> Self {
        if resp.success {
            JSend::Success { data: resp.data }
        } else {
            match resp.error {
                Some(err) => JSend::Error { message: err.message, code: None, data: resp.data },
                None => JSend::Error { message: arbitrary(), code: None, data: resp.data },
            }
        }
    }
}

impl From<ApiError> for JSend<()> {
    /// Maps an [`ApiError`] onto a JSend error.
    fn from(err: ApiError) -> (r: Self)
        ensures
            r@ == jsend_of_error(err@),
    {
        Self::Error { message: err.message, code: None, data: None }
    }
}

impl vstd::std_specs::convert::FromSpecImpl<ApiError> for JSend<()> {
    open spec fn obeys_from_spec() -> bool {
        true
    }

    open spec fn from_spec(err: ApiError) -> Self {
        JSend::Error { message: err.message, code: None, data: None }
    }
}

} // verus!
