//! Standard API response types: success/error envelopes, paginated lists,
//! a strict JSend envelope and RFC 7807 problem details, each with a
//! mathematical model (`View`) that the contracts speak of.

pub mod error;
pub mod jsend;
pub mod laws;
mod outside;
pub mod problem;
pub mod response;

pub use error::{ApiError, ApiErrorView};
pub use jsend::{JSend, JSendView};
pub use problem::{ProblemDetail, ProblemDetailView};
pub use response::{
    ApiListResponse, ApiListResponseView, ApiResponse, ApiResponseView, PaginationMeta,
};
