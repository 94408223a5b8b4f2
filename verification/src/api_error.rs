//! Failures of the record-keeping endpoints and the uniform body that
//! reports them.

use vstd::prelude::*;
use crate::text::{chars_of, find_from, first_occurrence};

verus! {

/// A failure of a request, by kind, with the detail that is logged and
/// reported.
#[derive(Clone, Debug, PartialEq, Eq)]
pub enum AppError {
    /// The store failed: no connection, or a query went wrong.
    Database(String),
    /// The input is not valid.
    Validation(String),
    /// What was asked for does not exist.
    NotFound(String),
    /// The caller may not do this.
    Unauthorized(String),
    /// The request is malformed.
    BadRequest(String),
    /// The service itself failed.
    InternalServer(String),
}

/// An `AppError` as contracts see it.
pub enum AppErrorView {
    Database(Seq<char>),
    Validation(Seq<char>),
    NotFound(Seq<char>),
    Unauthorized(Seq<char>),
    BadRequest(Seq<char>),
    InternalServer(Seq<char>),
}

impl View for AppError {
    type V = AppErrorView;

    open spec fn view(&self) -> AppErrorView {
        match self {
            AppError::Database(detail) => AppErrorView::Database(detail@),
            AppError::Validation(detail) => AppErrorView::Validation(detail@),
            AppError::NotFound(detail) => AppErrorView::NotFound(detail@),
            AppError::Unauthorized(detail) => AppErrorView::Unauthorized(detail@),
            AppError::BadRequest(detail) => AppErrorView::BadRequest(detail@),
            AppError::InternalServer(detail) => AppErrorView::InternalServer(detail@),
        }
    }
}

/// The body that reports a failure.
#[derive(Clone, Debug, PartialEq, Eq)]
pub struct ErrorResponse {
    pub message: String,
    pub error: Option<String>,
    pub status: u16,
}

/// An `ErrorResponse` as contracts see it.
pub struct ErrorResponseView {
    pub message: Seq<char>,
    pub error: Option<Seq<char>>,
    pub status: u16,
}

impl View for ErrorResponse {
    type V = ErrorResponseView;

    open spec fn view(&self) -> ErrorResponseView {
        ErrorResponseView {
            message: self.message@,
            error: match self.error {
                Some(detail) => Some(detail@),
                None => None,
            },
            status: self.status,
        }
    }
}

impl AppErrorView {
    /// The detail the failure carries.
    pub open spec fn detail(self) -> Seq<char> {
        match self {
            AppErrorView::Database(detail) => detail,
            AppErrorView::Validation(detail) => detail,
            AppErrorView::NotFound(detail) => detail,
            AppErrorView::Unauthorized(detail) => detail,
            AppErrorView::BadRequest(detail) => detail,
            AppErrorView::InternalServer(detail) => detail,
        }
    }

    /// The words that introduce the detail when the failure is printed.
    pub open spec fn label(self) -> Seq<char> {
        match self {
            AppErrorView::Database(_) => "Database error: "@,
            AppErrorView::Validation(_) => "Validation error: "@,
            AppErrorView::NotFound(_) => "Not found: "@,
            AppErrorView::Unauthorized(_) => "Unauthorized: "@,
            AppErrorView::BadRequest(_) => "Bad request: "@,
            AppErrorView::InternalServer(_) => "Internal server error: "@,
        }
    }

    /// The failure printed: label, then detail.
    pub open spec fn text(self) -> Seq<char> {
        self.label() + self.detail()
    }

    /// The status of the response that reports the failure.
    pub open spec fn status_code(self) -> u16 {
        match self {
            AppErrorView::Database(_) => 500,
            AppErrorView::Validation(_) => 400,
            AppErrorView::NotFound(_) => 404,
            AppErrorView::Unauthorized(_) => 401,
            AppErrorView::BadRequest(_) => 400,
            AppErrorView::InternalServer(_) => 500,
        }
    }

    /// The sentence that tells the client what kind of failure it was.
    pub open spec fn summary(self) -> Seq<char> {
        match self {
            AppErrorView::Database(_) => "Database operation failed"@,
            AppErrorView::Validation(_) => "Validation failed"@,
            AppErrorView::NotFound(_) => "Resource not found"@,
            AppErrorView::Unauthorized(_) => "Unauthorized access"@,
            AppErrorView::BadRequest(_) => "Invalid request"@,
            AppErrorView::InternalServer(_) => "Internal server error"@,
        }
    }

    /// The body that reports the failure: the summary, the printed failure
    /// and the status.
    pub open spec fn error_response(self) -> ErrorResponseView {
        ErrorResponseView {
            message: self.summary(),
            error: Some(self.text()),
            status: self.status_code(),
        }
    }
}

/// What went wrong with a JSON body.
#[derive(Clone, Debug, PartialEq, Eq)]
pub enum PayloadFailure {
    /// The request did not declare a JSON body.
    ContentType,
    /// The body is JSON but does not fit what is expected; `message` is the
    /// parser's sentence about it.
    Data { message: String },
    /// The body is not JSON.
    Syntax,
    /// Anything else.
    Other,
}

/// The marker before a field's name in a parser's sentence.
pub open spec fn field_marker() -> Seq<char> {
    "field `"@
}

/// The text up to, and without, the first occurrence of `stop`; all of it
/// where `stop` does not occur.
pub open spec fn before(text: Seq<char>, stop: Seq<char>) -> Seq<char> {
    match first_occurrence(text, stop, 0) {
        Some(at) => text.subrange(0, at),
        None => text,
    }
}

/// The text behind the first occurrence of the field marker, if there is
/// one.
pub open spec fn behind_marker(message: Seq<char>) -> Option<Seq<char>> {
    match first_occurrence(message, field_marker(), 0) {
        Some(at) => Some(message.subrange(at + field_marker().len(), message.len() as int)),
        None => None,
    }
}

/// The name of the field that a parser's sentence complains of: what
/// stands behind the first marker, up to the next marker and up to the next
/// backquote, whichever comes first; `unknown` where the sentence has no
/// marker.
pub open spec fn field_name(message: Seq<char>) -> Seq<char> {
    match behind_marker(message) {
        Some(rest) => before(before(rest, field_marker()), "`"@),
        None => "unknown"@,
    }
}

/// Copies a run of characters.
fn run_of(chars: &[char], from: usize, to: usize) -> (run: Vec<char>)
    requires
        from <= to <= chars.len(),
    ensures
        run@ == chars@.subrange(from as int, to as int),
{
    let mut run: Vec<char> = Vec::new();
    let mut i: usize = from;
    while i < to
        invariant
            from <= i <= to <= chars.len(),
            run@ == chars@.subrange(from as int, i as int),
        decreases to - i,
    {
        run.push(chars[i]);
        assert(run@ =~= chars@.subrange(from as int, i + 1));
        i += 1;
    }
    run
}

/// Collects the first `to` characters into a text.
fn text_of(chars: &[char], to: usize) -> (text: String)
    requires
        to <= chars.len(),
    ensures
        text@ == chars@.subrange(0, to as int),
{
    let mut text = String::new();
    let mut i: usize = 0;
    while i < to
        invariant
            i <= to <= chars.len(),
            text@ == chars@.subrange(0, i as int),
        decreases to - i,
    {
        crate::trusted::string_push(&mut text, chars[i]);
        assert(text@ =~= chars@.subrange(0, i + 1));
        i += 1;
    }
    text
}

/// The position of the first occurrence of `stop` in `chars`, or the length
/// of `chars` where there is none: where `before` cuts.
fn cut(chars: &[char], stop: &[char]) -> (at: usize)
    ensures
        at <= chars.len(),
        chars@.subrange(0, at as int) == before(chars@, stop@),
{
    proof {
        crate::text::first_occurrence_is_first(chars@, stop@, 0);
    }
    match find_from(chars, stop, 0) {
        Some(at) => at,
        None => {
            assert(chars@.subrange(0, chars@.len() as int) =~= chars@);
            chars.len()
        },
    }
}

/// Reads the name of the offending field out of a parser's sentence.
pub fn extract_field_name(message: &str) -> (name: String)
    ensures
        name@ == field_name(message@),
{
    let chars = chars_of(message);
    let marker = chars_of("field `");
    let quote = chars_of("`");
    let total = chars.len();
    proof {
        crate::text::first_occurrence_is_first(chars@, marker@, 0);
    }
    let start = match find_from(chars.as_slice(), marker.as_slice(), 0) {
        Some(at) => at + marker.len(),
        None => {
            return "unknown".to_owned();
        },
    };
    let rest = run_of(chars.as_slice(), start, total);
    let segment_end = cut(rest.as_slice(), marker.as_slice());
    let segment = run_of(rest.as_slice(), 0, segment_end);
    let name_end = cut(segment.as_slice(), quote.as_slice());
    text_of(segment.as_slice(), name_end)
}

impl AppError {
    /// The failure as one line of text.
    pub fn to_string(&self) -> (text: String)
        ensures
            text@ == self@.text(),
    {
        let (label, detail) = match self {
            AppError::Database(detail) => ("Database error: ", detail),
            AppError::Validation(detail) => ("Validation error: ", detail),
            AppError::NotFound(detail) => ("Not found: ", detail),
            AppError::Unauthorized(detail) => ("Unauthorized: ", detail),
            AppError::BadRequest(detail) => ("Bad request: ", detail),
            AppError::InternalServer(detail) => ("Internal server error: ", detail),
        };
        let mut text = label.to_owned();
        text.append(detail.as_str());
        text
    }

    /// The status of the response that reports the failure.
    pub fn status_code(&self) -> (status: u16)
        ensures
            status == self@.status_code(),
    {
        match self {
            AppError::Database(_) => 500,
            AppError::Validation(_) => 400,
            AppError::NotFound(_) => 404,
            AppError::Unauthorized(_) => 401,
            AppError::BadRequest(_) => 400,
            AppError::InternalServer(_) => 500,
        }
    }

    /// The body that reports the failure.
    pub fn error_response(&self) -> (body: ErrorResponse)
        ensures
            body@ == self@.error_response(),
    {
        let message = match self {
            AppError::Database(_) => "Database operation failed",
            AppError::Validation(_) => "Validation failed",
            AppError::NotFound(_) => "Resource not found",
            AppError::Unauthorized(_) => "Unauthorized access",
            AppError::BadRequest(_) => "Invalid request",
            AppError::InternalServer(_) => "Internal server error",
        };
        ErrorResponse {
            message: message.to_owned(),
            error: Some(self.to_string()),
            status: self.status_code(),
        }
    }

    /// The failure that a failed query stands for. A query that found no row
    /// is a missing resource; any other is a failure of the store, with the
    /// store's own words as detail.
    pub fn from_query_failure(not_found: bool, detail: String) -> (e: AppError)
        ensures
            e@ == if not_found {
                AppErrorView::NotFound("Resource not found"@)
            } else {
                AppErrorView::Database(detail@)
            },
    {
        if not_found {
            AppError::NotFound("Resource not found".to_owned())
        } else {
            AppError::Database(detail)
        }
    }

    /// The failure that a connection pool stands for when it hands out no
    /// connection.
    pub fn from_pool_failure() -> (e: AppError)
        ensures
            e@ == AppErrorView::Database("Failed to get database connection"@),
    {
        AppError::Database("Failed to get database connection".to_owned())
    }

    /// The failure that an identifier stands for when it is no UUID.
    pub fn from_uuid_failure() -> (e: AppError)
        ensures
            e@ == AppErrorView::BadRequest("Invalid UUID format"@),
    {
        AppError::BadRequest("Invalid UUID format".to_owned())
    }

    /// What `from_payload_failure` makes of each kind of failure.
    pub open spec fn of_payload_failure(failure: PayloadFailure) -> AppErrorView {
        match failure {
            PayloadFailure::ContentType => AppErrorView::BadRequest(
                "Invalid content type. Expected application/json"@,
            ),
            PayloadFailure::Data { message } => AppErrorView::Validation(
                "Missing or invalid field: "@ + field_name(message@),
            ),
            PayloadFailure::Syntax => AppErrorView::BadRequest("Invalid JSON format"@),
            PayloadFailure::Other => AppErrorView::BadRequest("Error processing JSON data"@),
        }
    }

    /// The failure that a rejected JSON body stands for. Where the body does
    /// not fit, the field that the parser names is reported.
    pub fn from_payload_failure(failure: PayloadFailure) -> (e: AppError)
        ensures
            e@ == Self::of_payload_failure(failure),
    {
        match failure {
            PayloadFailure::ContentType => AppError::BadRequest(
                "Invalid content type. Expected application/json".to_owned(),
            ),
            PayloadFailure::Data { message } => {
                let mut detail = "Missing or invalid field: ".to_owned();
                let name = extract_field_name(message.as_str());
                detail.append(name.as_str());
                AppError::Validation(detail)
            },
            PayloadFailure::Syntax => AppError::BadRequest("Invalid JSON format".to_owned()),
            PayloadFailure::Other => AppError::BadRequest("Error processing JSON data".to_owned()),
        }
    }
}

/// The body of a response built by hand.
pub open spec fn plain_response(message: Seq<char>, error: Option<Seq<char>>, status: u16) -> ErrorResponseView {
    ErrorResponseView { message, error, status }
}

fn build(message: &str, error: Option<&str>, status: u16) -> (body: ErrorResponse)
    ensures
        body@ == plain_response(message@, detail_view(error), status),
{
    ErrorResponse {
        message: message.to_owned(),
        error: match error {
            Some(detail) => Some(detail.to_owned()),
            None => None,
        },
        status,
    }
}

/// An optional detail, as contracts see it.
pub open spec fn detail_view(error: Option<&str>) -> Option<Seq<char>> {
    match error {
        Some(detail) => Some(detail@),
        None => None,
    }
}

/// The body of a response with status 400.
pub fn bad_request(message: &str, error: Option<&str>) -> (body: ErrorResponse)
    ensures
        body@ == plain_response(message@, detail_view(error), 400),
{
    build(message, error, 400)
}

/// The body of a response with status 404.
pub fn not_found(message: &str, error: Option<&str>) -> (body: ErrorResponse)
    ensures
        body@ == plain_response(message@, detail_view(error), 404),
{
    build(message, error, 404)
}

/// The body of a response with status 500.
pub fn server_error(message: &str, error: Option<&str>) -> (body: ErrorResponse)
    ensures
        body@ == plain_response(message@, detail_view(error), 500),
{
    build(message, error, 500)
}

/// The body of a response with status 401.
pub fn unauthorized(message: &str, error: Option<&str>) -> (body: ErrorResponse)
    ensures
        body@ == plain_response(message@, detail_view(error), 401),
{
    build(message, error, 401)
}

} // verus!
