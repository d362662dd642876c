//! Properties that span several operations of the library, stated over the
//! models that the operations' contracts use.

use vstd::prelude::*;

use crate::error::{error_display, new_error, status_for_code, ApiErrorView};
use crate::jsend::{jsend_of_error, jsend_of_response, JSendView};
use crate::problem::{
    blank_problem, new_problem, problem_display, set_detail, set_instance, set_status, set_title,
    ProblemDetailView,
};
use crate::response::{
    error_list, error_response, paginated_response, success_list, success_response,
    ApiResponseView, PaginationMeta,
};

verus! {

/// The status table: each of the ten known error codes maps to its own HTTP
/// status number.
pub proof fn law_known_codes_map_to_their_status()
    ensures
        status_for_code("BAD_REQUEST"@) == 400,
        status_for_code("VALIDATION_ERROR"@) == 400,
        status_for_code("UNAUTHORIZED"@) == 401,
        status_for_code("FORBIDDEN"@) == 403,
        status_for_code("NOT_FOUND"@) == 404,
        status_for_code("CONFLICT"@) == 409,
        status_for_code("UNPROCESSABLE_ENTITY"@) == 422,
        status_for_code("RATE_LIMITED"@) == 429,
        status_for_code("INTERNAL_ERROR"@) == 500,
        status_for_code("SERVICE_UNAVAILABLE"@) == 503,
{
    reveal_strlit("BAD_REQUEST");
    reveal_strlit("VALIDATION_ERROR");
    reveal_strlit("UNAUTHORIZED");
    reveal_strlit("FORBIDDEN");
    reveal_strlit("NOT_FOUND");
    reveal_strlit("CONFLICT");
    reveal_strlit("UNPROCESSABLE_ENTITY");
    reveal_strlit("RATE_LIMITED");
    reveal_strlit("INTERNAL_ERROR");
    reveal_strlit("SERVICE_UNAVAILABLE");
    assert("BAD_REQUEST"@.len() == 11);
    assert("VALIDATION_ERROR"@.len() == 16);
    assert("UNAUTHORIZED"@.len() == 12);
    assert("FORBIDDEN"@.len() == 9);
    assert("NOT_FOUND"@.len() == 9);
    assert("CONFLICT"@.len() == 8);
    assert("UNPROCESSABLE_ENTITY"@.len() == 20);
    assert("RATE_LIMITED"@.len() == 12);
    assert("INTERNAL_ERROR"@.len() == 14);
    assert("SERVICE_UNAVAILABLE"@.len() == 19);
    assert("FORBIDDEN"@[0] != "NOT_FOUND"@[0]);
    assert("UNAUTHORIZED"@[0] != "RATE_LIMITED"@[0]);
}

/// Any code outside the table of ten known codes maps to 400 Bad Request.
pub proof fn law_unknown_code_maps_to_bad_request(code: Seq<char>)
    requires
        code != "BAD_REQUEST"@,
        code != "VALIDATION_ERROR"@,
        code != "UNAUTHORIZED"@,
        code != "FORBIDDEN"@,
        code != "NOT_FOUND"@,
        code != "CONFLICT"@,
        code != "UNPROCESSABLE_ENTITY"@,
        code != "RATE_LIMITED"@,
        code != "INTERNAL_ERROR"@,
        code != "SERVICE_UNAVAILABLE"@,
    ensures
        status_for_code(code) == 400,
{
}

/// A new error holds exactly the code and the message it was given, and no
/// details.
pub proof fn law_new_error_keeps_its_inputs(code: Seq<char>, message: Seq<char>)
    ensures
        new_error(code, message).code == code,
        new_error(code, message).message == message,
        new_error(code, message).details is None,
{
}

/// The display text of an error starts with `[`, the code, `] `, and ends
/// with the whole message.
pub proof fn law_error_display_parts(e: ApiErrorView)
    ensures
        error_display(e).len() == e.code.len() + e.message.len() + 3,
        error_display(e)[0] == '[',
        error_display(e).subrange(1, e.code.len() + 1int) == e.code,
        error_display(e).subrange(e.code.len() + 3int, error_display(e).len() as int) == e.message,
{
    reveal_strlit("[");
    reveal_strlit("] ");
    let d = error_display(e);
    assert(d.subrange(1, e.code.len() + 1int) =~= e.code);
    assert(d.subrange(e.code.len() + 3int, d.len() as int) =~= e.message);
}

/// The display text of a problem is `[`, its type, `] `, and its title.
pub proof fn law_problem_display_parts(p: ProblemDetailView)
    ensures
        problem_display(p).len() == p.problem_type.len() + p.title.len() + 3,
        problem_display(p)[0] == '[',
        problem_display(p).subrange(1, p.problem_type.len() + 1int) == p.problem_type,
        problem_display(p).subrange(p.problem_type.len() + 3int, problem_display(p).len() as int)
            == p.title,
{
    reveal_strlit("[");
    reveal_strlit("] ");
    let d = problem_display(p);
    assert(d.subrange(1, p.problem_type.len() + 1int) =~= p.problem_type);
    assert(d.subrange(p.problem_type.len() + 3int, d.len() as int) =~= p.title);
}

/// A fresh problem keeps the type it was given, with an empty title and no
/// status, detail or instance.
pub proof fn law_new_problem_fields(problem_type: Seq<char>)
    ensures
        new_problem(problem_type).problem_type == problem_type,
        new_problem(problem_type).title.len() == 0,
        new_problem(problem_type).status is None,
        new_problem(problem_type).detail is None,
        new_problem(problem_type).instance is None,
{
}

/// Each builder setter sets its own member to the given value and leaves
/// every other member of the problem as it was.
pub proof fn law_problem_setters_touch_only_their_member(
    p: ProblemDetailView,
    title: Seq<char>,
    status: u16,
    detail: Seq<char>,
    instance: Seq<char>,
)
    ensures
        set_title(p, title).title == title,
        set_title(p, title).problem_type == p.problem_type,
        set_title(p, title).status == p.status,
        set_title(p, title).detail == p.detail,
        set_title(p, title).instance == p.instance,
        set_status(p, status).status == Some(status),
        set_status(p, status).problem_type == p.problem_type,
        set_status(p, status).title == p.title,
        set_status(p, status).detail == p.detail,
        set_status(p, status).instance == p.instance,
        set_detail(p, detail).detail == Some(detail),
        set_detail(p, detail).problem_type == p.problem_type,
        set_detail(p, detail).title == p.title,
        set_detail(p, detail).status == p.status,
        set_detail(p, detail).instance == p.instance,
        set_instance(p, instance).instance == Some(instance),
        set_instance(p, instance).problem_type == p.problem_type,
        set_instance(p, instance).title == p.title,
        set_instance(p, instance).status == p.status,
        set_instance(p, instance).detail == p.detail,
{
}

/// The shortcut problems have type `about:blank`, the given title and
/// status, and no detail or instance.
pub proof fn law_blank_problem_fields(title: Seq<char>, status: u16)
    ensures
        blank_problem(title, status).problem_type == "about:blank"@,
        blank_problem(title, status).title == title,
        blank_problem(title, status).status == Some(status),
        blank_problem(title, status).detail is None,
        blank_problem(title, status).instance is None,
{
}

/// The response constructors keep what they are given: `success` and
/// `paginated` carry the data (and `paginated` exactly the metadata),
/// `error` carries exactly the error.
pub proof fn law_response_constructors_keep_inputs<T>(
    data: T,
    meta: PaginationMeta,
    err: ApiErrorView,
)
    ensures
        success_response(data).data == Some(data),
        success_response(data).pagination is None,
        paginated_response(data, meta).data == Some(data),
        paginated_response(data, meta).pagination == Some(meta),
        error_response::<T>(err).error == Some(err),
        error_response::<T>(err).pagination is None,
{
}

/// A success list response carries every paging figure it was given, and
/// an error list response carries none.
pub proof fn law_list_constructors_keep_inputs<T>(
    items: Seq<T>,
    page: u32,
    per_page: u32,
    total: u64,
    total_pages: u64,
    err: ApiErrorView,
)
    ensures
        success_list(items, page, per_page, total, total_pages).page == Some(page),
        success_list(items, page, per_page, total, total_pages).per_page == Some(per_page),
        success_list(items, page, per_page, total, total_pages).total == Some(total),
        success_list(items, page, per_page, total, total_pages).total_pages == Some(total_pages),
        error_list::<T>(err).page is None,
        error_list::<T>(err).per_page is None,
        error_list::<T>(err).total is None,
        error_list::<T>(err).total_pages is None,
{
}

/// Converting a failed response to JSend keeps its data and carries the
/// error's message, or an empty message where there is no error; no code.
pub proof fn law_jsend_of_failure_fields<T>(resp: ApiResponseView<T>)
    requires
        !resp.success,
    ensures
        jsend_of_response(resp) matches JSendView::Error { message, code, data } && data
            == resp.data && code is None && (match resp.error {
            Some(err) => message == err.message,
            None => message.len() == 0,
        }),
{
}

/// Converting a successful response to JSend keeps its data as it is.
pub proof fn law_jsend_of_success_fields<T>(resp: ApiResponseView<T>)
    requires
        resp.success,
    ensures
        jsend_of_response(resp) == (JSendView::Success { data: resp.data }),
{
}

/// Every error code maps to a client or server error status (4xx or 5xx),
/// and a code outside the known table maps to 400 Bad Request.
pub proof fn law_status_is_error_class(code: Seq<char>)
    ensures
        400 <= status_for_code(code) <= 599,
        status_for_code(code) == 400 || status_for_code(code) == 401
            || status_for_code(code) == 403 || status_for_code(code) == 404
            || status_for_code(code) == 409 || status_for_code(code) == 422
            || status_for_code(code) == 429 || status_for_code(code) == 500
            || status_for_code(code) == 503,
{
}

/// A success response always carries data and never an error; an error
/// response always carries an error and never data.
pub proof fn law_response_outcome_shape<T>(data: T, meta: PaginationMeta, err: ApiErrorView)
    ensures
        success_response(data).success,
        success_response(data).data is Some,
        success_response(data).error is None,
        paginated_response(data, meta).success,
        paginated_response(data, meta).data is Some,
        paginated_response(data, meta).error is None,
        !error_response::<T>(err).success,
        error_response::<T>(err).data is None,
        error_response::<T>(err).error == Some(err),
{
}

/// A success list response carries its items and no error; an error list
/// response carries only its error.
pub proof fn law_list_outcome_shape<T>(
    items: Seq<T>,
    page: u32,
    per_page: u32,
    total: u64,
    total_pages: u64,
    err: ApiErrorView,
)
    ensures
        success_list(items, page, per_page, total, total_pages).success,
        success_list(items, page, per_page, total, total_pages).data == Some(items),
        success_list(items, page, per_page, total, total_pages).error is None,
        !error_list::<T>(err).success,
        error_list::<T>(err).data is None,
        error_list::<T>(err).error == Some(err),
{
}

/// Of the JSend constructors, only `success` builds an envelope that
/// `is_success` accepts.
pub proof fn law_only_success_is_success<T>(data: T, message: Seq<char>, code: Option<i32>)
    ensures
        (JSendView::Success { data: Some(data) }) is Success,
        !((JSendView::Fail { data: Some(data) }) is Success),
        !((JSendView::<T>::Error { message, code, data: None }) is Success),
{
}

/// Converting an `ApiResponse` to JSend preserves the outcome: the envelope
/// is a JSend success exactly when the response was a success.
pub proof fn law_jsend_preserves_outcome<T>(resp: ApiResponseView<T>)
    ensures
        (jsend_of_response(resp) is Success) == resp.success,
{
}

/// A success response (plain or paginated) converts to a JSend success
/// carrying the same data.
pub proof fn law_jsend_of_success_keeps_data<T>(data: T, meta: PaginationMeta)
    ensures
        jsend_of_response(success_response(data)) == (JSendView::Success { data: Some(data) }),
        jsend_of_response(paginated_response(data, meta)) == (JSendView::Success {
            data: Some(data),
        }),
{
}

/// Converting an error response to JSend gives the same envelope as
/// converting its error directly: a JSend error carrying the error's message.
pub proof fn law_jsend_of_error_response_is_jsend_of_error(err: ApiErrorView)
    ensures
        jsend_of_response(error_response::<()>(err)) == jsend_of_error(err),
        jsend_of_error(err) == (JSendView::<()>::Error {
            message: err.message,
            code: None,
            data: None,
        }),
{
}

/// Every builder setter observably changes a fresh problem (the title does so
/// whenever the new title is not empty), and changes nothing but its own member.
pub proof fn law_problem_setters_change_output(
    problem_type: Seq<char>,
    title: Seq<char>,
    status: u16,
    detail: Seq<char>,
    instance: Seq<char>,
)
    ensures
        title.len() > 0 ==> set_title(new_problem(problem_type), title) != new_problem(
            problem_type,
        ),
        set_status(new_problem(problem_type), status) != new_problem(problem_type),
        set_detail(new_problem(problem_type), detail) != new_problem(problem_type),
        set_instance(new_problem(problem_type), instance) != new_problem(problem_type),
        set_title(new_problem(problem_type), title).title == title,
        set_status(new_problem(problem_type), status).status == Some(status),
        set_detail(new_problem(problem_type), detail).detail == Some(detail),
        set_instance(new_problem(problem_type), instance).instance == Some(instance),
{
    assert(title.len() > 0 ==> set_title(new_problem(problem_type), title).title.len()
        != new_problem(problem_type).title.len());
}

/// Setters of different members commute, and a second call of the same
/// setter overrides the first.
pub proof fn law_problem_setters_commute(
    p: ProblemDetailView,
    title: Seq<char>,
    title2: Seq<char>,
    status: u16,
    status2: u16,
    detail: Seq<char>,
    instance: Seq<char>,
)
    ensures
        set_status(set_title(p, title), status) == set_title(set_status(p, status), title),
        set_detail(set_title(p, title), detail) == set_title(set_detail(p, detail), title),
        set_instance(set_title(p, title), instance) == set_title(set_instance(p, instance), title),
        set_detail(set_status(p, status), detail) == set_status(set_detail(p, detail), status),
        set_instance(set_status(p, status), instance) == set_status(
            set_instance(p, instance),
            status,
        ),
        set_instance(set_detail(p, detail), instance) == set_detail(
            set_instance(p, instance),
            detail,
        ),
        set_title(set_title(p, title), title2) == set_title(p, title2),
        set_status(set_status(p, status), status2) == set_status(p, status2),
{
}

} // verus!
