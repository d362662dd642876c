use vstd::prelude::*;

verus! {

/// The model of a [`ProblemDetail`]: its text fields as character sequences.
pub struct ProblemDetailView {
    pub problem_type: Seq<char>,
    pub title: Seq<char>,
    pub status: Option<u16>,
    pub detail: Option<Seq<char>>,
    pub instance: Option<Seq<char>>,
}

/// The model of an optional string.
pub open spec fn opt_string_view(s: Option<String>) -> Option<Seq<char>> {
    match s {
        Some(s) => Some(s@),
        None => None,
    }
}

/// A fresh problem of the given type: empty title, every optional member absent.
pub open spec fn new_problem(problem_type: Seq<char>) -> ProblemDetailView {
    ProblemDetailView {
        problem_type,
        title: Seq::empty(),
        status: None,
        detail: None,
        instance: None,
    }
}

/// `p` with its title replaced.
pub open spec fn set_title(p: ProblemDetailView, title: Seq<char>) -> ProblemDetailView {
    ProblemDetailView { title, ..p }
}

/// `p` with its status set.
pub open spec fn set_status(p: ProblemDetailView, status: u16) -> ProblemDetailView {
    ProblemDetailView { status: Some(status), ..p }
}

/// `p` with its detail set.
pub open spec fn set_detail(p: ProblemDetailView, detail: Seq<char>) -> ProblemDetailView {
    ProblemDetailView { detail: Some(detail), ..p }
}

/// `p` with its instance set.
pub open spec fn set_instance(p: ProblemDetailView, instance: Seq<char>) -> ProblemDetailView {
    ProblemDetailView { instance: Some(instance), ..p }
}

/// The generic problem type `about:blank` with a title and a status.
pub open spec fn blank_problem(title: Seq<char>, status: u16) -> ProblemDetailView {
    set_status(set_title(new_problem("about:blank"@), title), status)
}

/// The text that a problem displays as: `[type] title`.
pub open spec fn problem_display(p: ProblemDetailView) -> Seq<char> {
    "["@ + p.problem_type + "] "@ + p.title
}

/// RFC 7807 Problem Details for HTTP APIs.
///
/// See <https://www.rfc-editor.org/rfc/rfc7807> for the specification.
#[derive(Debug, Clone)]
pub struct ProblemDetail {
    /// URI reference identifying the problem type.
    pub problem_type: String,
    /// Short human-readable summary.
    pub title: String,
    /// HTTP status code.
    pub status: Option<u16>,
    /// Human-readable explanation specific to this occurrence.
    pub detail: Option<String>,
    /// URI reference identifying the specific occurrence.
    pub instance: Option<String>,
}

impl View for ProblemDetail {
    type V = ProblemDetailView;

    open spec fn view(&self) -> ProblemDetailView {
        ProblemDetailView {
            problem_type: self.problem_type@,
            title: self.title@,
            status: self.status,
            detail: opt_string_view(self.detail),
            instance: opt_string_view(self.instance),
        }
    }
}

impl ProblemDetail {
    /// Creates a new problem detail with the given problem type URI.
    pub fn new(problem_type: &str) -> (p: Self)
        ensures
            p@ == new_problem(problem_type@),
    {
        Self {
            problem_type: String::from_str(problem_type),
            title: String::new(),
            status: None,
            detail: None,
            instance: None,
        }
    }

    /// Sets the title.
    pub fn with_title(self, title: &str) -> (p: Self)
        ensures
            p@ == set_title(self@, title@),
    {
        let mut p = self;
        p.title = String::from_str(title);
        p
    }

    /// Sets the HTTP status code.
    pub fn with_status(self, status: u16) -> (p: Self)
        ensures
            p@ == set_status(self@, status),
    {
        let mut p = self;
        p.status = Some(status);
        p
    }

    /// Sets the detail message.
    pub fn with_detail(self, detail: &str) -> (p: Self)
        ensures
            p@ == set_detail(self@, detail@),
    {
        let mut p = self;
        p.detail = Some(String::from_str(detail));
        p
    }

    /// Sets the instance URI.
    pub fn with_instance(self, instance: &str) -> (p: Self)
        ensures
            p@ == set_instance(self@, instance@),
    {
        let mut p = self;
        p.instance = Some(String::from_str(instance));
        p
    }

    /// Creates a "Not Found" problem detail.
    pub fn not_found() -> (p: Self)
        ensures
            p@ == blank_problem("Not Found"@, 404),
    {
        Self::new("about:blank").with_title("Not Found").with_status(404)
    }

    /// Creates a "Bad Request" problem detail.
    pub fn bad_request() -> (p: Self)
        ensures
            p@ == blank_problem("Bad Request"@, 400),
    {
        Self::new("about:blank").with_title("Bad Request").with_status(400)
    }

    /// Creates an "Internal Server Error" problem detail.
    pub fn internal_error() -> (p: Self)
        ensures
            p@ == blank_problem("Internal Server Error"@, 500),
    {
        Self::new("about:blank").with_title("Internal Server Error").with_status(500)
    }

    /// The text this problem displays as: `[type] title`.
    pub fn display_string(&self) -> (s: String)
        ensures
            s@ == problem_display(self@),
    {
        let mut s = String::from_str("[");
        s.append(self.problem_type.as_str());
        s.append("] ");
        s.append(self.title.as_str());
        s
    }
}

} // verus!
