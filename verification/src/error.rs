use vstd::prelude::*;

use crate::outside::{http_status_number, status_from_u16};

verus! {

/// The model of an [`ApiError`]: code and message as character sequences,
/// and the details as they are.
pub struct ApiErrorView {
    pub code: Seq<char>,
    pub message: Seq<char>,
    pub details: Option<serde_json::Value>,
}

/// A fresh error with the given code and message and no details.
pub open spec fn new_error(code: Seq<char>, message: Seq<char>) -> ApiErrorView {
    ApiErrorView { code, message, details: None }
}

/// The HTTP status number that an error code maps to. Unknown codes map to
/// 400 (they fail closed to a client error).
pub open spec fn status_for_code(code: Seq<char>) -> u16 {
    if code == "BAD_REQUEST"@ || code == "VALIDATION_ERROR"@ {
        400
    } else if code == "UNAUTHORIZED"@ {
        401
    } else if code == "FORBIDDEN"@ {
        403
    } else if code == "NOT_FOUND"@ {
        404
    } else if code == "CONFLICT"@ {
        409
    } else if code == "UNPROCESSABLE_ENTITY"@ {
        422
    } else if code == "RATE_LIMITED"@ {
        429
    } else if code == "INTERNAL_ERROR"@ {
        500
    } else if code == "SERVICE_UNAVAILABLE"@ {
        503
    } else {
        400
    }
}

/// The text that an error displays as: `[code] message`.
pub open spec fn error_display(e: ApiErrorView) -> Seq<char> {
    "["@ + e.code + "] "@ + e.message
}

/// Whether two string slices hold the same characters.
pub fn str_equals(a: &str, b: &str) -> (r: bool)
    ensures
        r == (a@ == b@),
{
    let n = a.unicode_len();
    let m = b.unicode_len();
    if n != m {
        return false;
    }
    let mut i: usize = 0;
    while i < n
        invariant
            n == a@.len(),
            m == b@.len(),
            n == m,
            i <= n,
            forall|j: int| 0 <= j < i ==> a@[j] == b@[j],
        decreases n - i,
    {
        if a.get_char(i) != b.get_char(i) {
            return false;
        }
        i = i + 1;
    }
    assert(a@ =~= b@);
    true
}

/// A structured API error with code, message, and optional details.
#[derive(Debug, Clone)]
pub struct ApiError {
    /// Machine-readable error code (e.g. `"NOT_FOUND"`).
    pub code: String,
    /// Human-readable error message.
    pub message: String,
    /// Optional additional details about the error.
    pub details: Option<serde_json::Value>,
}

impl View for ApiError {
    type V = ApiErrorView;

    open spec fn view(&self) -> ApiErrorView {
        ApiErrorView { code: self.code@, message: self.message@, details: self.details }
    }
}

impl ApiError {
    /// Creates a new API error with a code and message.
    pub fn new(code: &str, message: &str) -> (e: Self)
        ensures
            e@ == new_error(code@, message@),
    {
        Self { code: String::from_str(code), message: String::from_str(message), details: None }
    }

    /// Attaches additional details to the error.
    pub fn with_details(self, details: serde_json::Value) -> (e: Self)
        ensures
            e@ == (ApiErrorView { details: Some(details), ..self@ }),
    {
        let mut e = self;
        e.details = Some(details);
        e
    }

    /// Returns the number of the HTTP status code for this error.
    pub fn status_number(&self) -> (n: u16)
        ensures
            n == status_for_code(self@.code),
    {
        let code = self.code.as_str();
        if str_equals(code, "BAD_REQUEST") || str_equals(code, "VALIDATION_ERROR") {
            400
        } else if str_equals(code, "UNAUTHORIZED") {
            401
        } else if str_equals(code, "FORBIDDEN") {
            403
        } else if str_equals(code, "NOT_FOUND") {
            404
        } else if str_equals(code, "CONFLICT") {
            409
        } else if str_equals(code, "UNPROCESSABLE_ENTITY") {
            422
        } else if str_equals(code, "RATE_LIMITED") {
            429
        } else if str_equals(code, "INTERNAL_ERROR") {
            500
        } else if str_equals(code, "SERVICE_UNAVAILABLE") {
            503
        } else {
            400
        }
    }

    /// Returns the appropriate HTTP status code for this error.
    pub fn status_code(&self) -> (s: http::StatusCode)
        ensures
            http_status_number(s) == status_for_code(self@.code),
    {
        let n = self.status_number();
        status_from_u16(n)
    }

    /// The text this error displays as: `[code] message`.
    pub fn display_string(&self) -> (s: String)
        ensures
            s@ == error_display(self@),
    {
        let mut s = String::from_str("[");
        s.append(self.code.as_str());
        s.append("] ");
        s.append(self.message.as_str());
        s
    }
}

} // verus!
