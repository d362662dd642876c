use vstd::prelude::*;

use crate::error::{new_error, ApiError, ApiErrorView};

verus! {

/// Pagination metadata for list responses.
#[derive(Debug, Clone)]
pub struct PaginationMeta {
    /// Current page number (1-indexed).
    pub page: u32,
    /// Number of items per page.
    pub per_page: u32,
    /// Total number of items across all pages.
    pub total: u64,
    /// Total number of pages.
    pub total_pages: u32,
}

/// The model of an [`ApiResponse`].
pub struct ApiResponseView<T> {
    pub success: bool,
    pub data: Option<T>,
    pub error: Option<ApiErrorView>,
    pub pagination: Option<PaginationMeta>,
}

/// The model of an optional error.
pub open spec fn opt_error_view(e: Option<ApiError>) -> Option<ApiErrorView> {
    match e {
        Some(e) => Some(e@),
        None => None,
    }
}

/// A success response carrying `data`.
pub open spec fn success_response<T>(data: T) -> ApiResponseView<T> {
    ApiResponseView { success: true, data: Some(data), error: None, pagination: None }
}

/// A success response carrying `data` and pagination metadata.
pub open spec fn paginated_response<T>(data: T, meta: PaginationMeta) -> ApiResponseView<T> {
    ApiResponseView { success: true, data: Some(data), error: None, pagination: Some(meta) }
}

/// An error response carrying `error`.
pub open spec fn error_response<T>(error: ApiErrorView) -> ApiResponseView<T> {
    ApiResponseView { success: false, data: None, error: Some(error), pagination: None }
}

/// Standard API response wrapper for success and error cases.
///
/// Follows the JSend convention (`success` / `data` / `error`); see also
/// [`JSend`](crate::JSend) for the strict `{"status": ...}` JSend spelling
/// and [`ApiListResponse`] for paginated lists.
#[derive(Debug, Clone)]
pub struct ApiResponse<T> {
    /// Whether the request was successful.
    pub success: bool,
    /// The response data. Present on success, absent on error.
    pub data: Option<T>,
    /// Error details. Present on failure, absent on success.
    pub error: Option<ApiError>,
    /// Pagination metadata. Present for list endpoints (see [`ApiResponse::paginated`]).
    pub pagination: Option<PaginationMeta>,
}

impl<T> View for ApiResponse<T> {
    type V = ApiResponseView<T>;

    open spec fn view(&self) -> ApiResponseView<T> {
        ApiResponseView {
            success: self.success,
            data: self.data,
            error: opt_error_view(self.error),
            pagination: self.pagination,
        }
    }
}

impl<T> ApiResponse<T> {
    /// Creates a success response with the given data.
    pub fn success(data: T) -> (r: Self)
        ensures
            r@ == success_response(data),
    {
        Self { success: true, data: Some(data), error: None, pagination: None }
    }

    /// Creates a paginated success response with the given data and metadata.
    pub fn paginated(data: T, meta: PaginationMeta) -> (r: Self)
        ensures
            r@ == paginated_response(data, meta),
    {
        Self { success: true, data: Some(data), error: None, pagination: Some(meta) }
    }

    /// Creates an error response.
    pub fn error(error: ApiError) -> (r: Self)
        ensures
            r@ == error_response::<T>(error@),
    {
        Self { success: false, data: None, error: Some(error), pagination: None }
    }

    /// Creates an error response from a code and message.
    ///
    /// Shorthand for `ApiResponse::error(ApiError::new(code, message))`.
    pub fn error_with(code: &str, message: &str) -> (r: Self)
        ensures
            r@ == error_response::<T>(new_error(code@, message@)),
    {
        Self::error(ApiError::new(code, message))
    }
}

impl<T> From<T> for ApiResponse<T> {
    /// Wraps data in a success response.
    fn from(data: T) -> (r: Self)
        ensures
            r@ == success_response(data),
    {
        Self::success(data)
    }
}

impl<T> vstd::std_specs::convert::FromSpecImpl<T> for ApiResponse<T> {
    open spec fn obeys_from_spec() -> bool {
        true
    }

    open spec fn from_spec(data: T) -> Self {
        ApiResponse { success: true, data: Some(data), error: None, pagination: None }
    }
}

/// The model of an [`ApiListResponse`].
pub struct ApiListResponseView<T> {
    pub success: bool,
    pub data: Option<Seq<T>>,
    pub page: Option<u32>,
    pub per_page: Option<u32>,
    pub total: Option<u64>,
    pub total_pages: Option<u64>,
    pub error: Option<ApiErrorView>,
}

/// A success list response with its items and paging figures.
pub open spec fn success_list<T>(
    items: Seq<T>,
    page: u32,
    per_page: u32,
    total: u64,
    total_pages: u64,
) -> ApiListResponseView<T> {
    ApiListResponseView {
        success: true,
        data: Some(items),
        page: Some(page),
        per_page: Some(per_page),
        total: Some(total),
        total_pages: Some(total_pages),
        error: None,
    }
}

/// An error list response: only the error is present.
pub open spec fn error_list<T>(error: ApiErrorView) -> ApiListResponseView<T> {
    ApiListResponseView {
        success: false,
        data: None,
        page: None,
        per_page: None,
        total: None,
        total_pages: None,
        error: Some(error),
    }
}

/// API response for paginated lists.
#[derive(Debug, Clone)]
pub struct ApiListResponse<T> {
    /// Whether the request was successful.
    pub success: bool,
    /// The list of items.
    pub data: Option<Vec<T>>,
    /// Current page number (1-indexed).
    pub page: Option<u32>,
    /// Number of items per page.
    pub per_page: Option<u32>,
    /// Total number of items across all pages.
    pub total: Option<u64>,
    /// Total number of pages.
    pub total_pages: Option<u64>,
    /// Error details. Present on failure.
    pub error: Option<ApiError>,
}

impl<T> View for ApiListResponse<T> {
    type V = ApiListResponseView<T>;

    open spec fn view(&self) -> ApiListResponseView<T> {
        ApiListResponseView {
            success: self.success,
            data: match self.data {
                Some(v) => Some(v@),
                None => None,
            },
            page: self.page,
            per_page: self.per_page,
            total: self.total,
            total_pages: self.total_pages,
            error: opt_error_view(self.error),
        }
    }
}

impl<T> ApiListResponse<T> {
    /// Creates a success list response.
    pub fn success(items: Vec<T>, page: u32, per_page: u32, total: u64, total_pages: u64) -> (r:
        Self)
        ensures
            r@ == success_list(items@, page, per_page, total, total_pages),
    {
        Self {
            success: true,
            data: Some(items),
            page: Some(page),
            per_page: Some(per_page),
            total: Some(total),
            total_pages: Some(total_pages),
            error: None,
        }
    }

    /// Creates an error list response.
    pub fn error(error: ApiError) -> (r: Self)
        ensures
            r@ == error_list::<T>(error@),
    {
        Self {
            success: false,
            data: None,
            page: None,
            per_page: None,
            total: None,
            total_pages: None,
            error: Some(error),
        }
    }
}

} // verus!
