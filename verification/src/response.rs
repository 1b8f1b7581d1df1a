use vstd::prelude::*;

use crate::ids::{id_text, machine_id_text};
use crate::text::{concat2, concat3, text};

verus! {

/// `200 OK`
pub const STATUS_OK: u16 = 200;

/// `201 Created`
pub const STATUS_CREATED: u16 = 201;

/// `400 Bad Request`
pub const STATUS_BAD_REQUEST: u16 = 400;

/// `404 Not Found`
pub const STATUS_NOT_FOUND: u16 = 404;

/// `500 Internal Server Error`
pub const STATUS_INTERNAL_ERROR: u16 = 500;

/// The content type sent with a text body whose header is set explicitly.
#[derive(Debug, Clone, Copy, PartialEq, Eq, Structural)]
pub enum MediaType {
    /// `text/html`
    TextHtml,
    /// `text/plain`
    TextPlain,
}

/// The JSON error object: a short kind of error and a human message.
#[derive(Debug, Clone, PartialEq, Eq)]
pub struct ErrorResponse {
    pub error: String,
    pub message: String,
}

/// The JSON object of an operation's result: whether it succeeded, and a
/// human message.
#[derive(Debug, Clone, PartialEq, Eq)]
pub struct OutcomeResponse {
    pub success: bool,
    pub message: String,
}

/// The JSON answer to a registration: the new machine's id and what the
/// machine should do next.
#[derive(Debug, Clone, PartialEq, Eq)]
pub struct RegisterResponse {
    pub machine_id: u128,
    pub next_step: String,
}

/// The body of an answer.
#[derive(Debug, Clone, PartialEq, Eq)]
pub enum Body {
    /// An `ErrorResponse`, as JSON.
    Error(ErrorResponse),
    /// An `OutcomeResponse`, as JSON.
    Outcome(OutcomeResponse),
    /// A `RegisterResponse`, as JSON.
    Registered(RegisterResponse),
    /// The machine record that the lookup returned, as JSON.
    Record,
    /// The list of machine records that the listing returned, as JSON.
    Records,
    /// A JSON object with the single field `error`.
    ErrorOnly(String),
    /// An HTML page (`text/html; charset=utf-8`).
    Html(String),
    /// Plain text (`text/plain; charset=utf-8`).
    Plain(String),
    /// Text sent with an explicit content type header.
    Typed(MediaType, String),
}

/// An HTTP answer: a status code and a body.
#[derive(Debug, Clone, PartialEq, Eq)]
pub struct ApiResponse {
    pub status: u16,
    pub body: Body,
}

/// What a body holds, with texts as character sequences.
pub enum BodyView {
    Error { error: Seq<char>, message: Seq<char> },
    Outcome { success: bool, message: Seq<char> },
    Registered { machine_id: u128, next_step: Seq<char> },
    Record,
    Records,
    ErrorOnly(Seq<char>),
    Html(Seq<char>),
    Plain(Seq<char>),
    Typed(MediaType, Seq<char>),
}

/// What an answer holds.
pub struct ResponseView {
    pub status: u16,
    pub body: BodyView,
}

impl View for Body {
    type V = BodyView;

    open spec fn view(&self) -> BodyView {
        match self {
            Body::Error(e) => BodyView::Error { error: e.error@, message: e.message@ },
            Body::Outcome(o) => BodyView::Outcome { success: o.success, message: o.message@ },
            Body::Registered(r) => BodyView::Registered {
                machine_id: r.machine_id,
                next_step: r.next_step@,
            },
            Body::Record => BodyView::Record,
            Body::Records => BodyView::Records,
            Body::ErrorOnly(e) => BodyView::ErrorOnly(e@),
            Body::Html(h) => BodyView::Html(h@),
            Body::Plain(t) => BodyView::Plain(t@),
            Body::Typed(m, t) => BodyView::Typed(*m, t@),
        }
    }
}

impl View for ApiResponse {
    type V = ResponseView;

    open spec fn view(&self) -> ResponseView {
        ResponseView { status: self.status, body: self.body@ }
    }
}

/// The answer with the given status and body.
pub open spec fn answer(status: u16, body: BodyView) -> ResponseView {
    ResponseView { status, body }
}

/// The answer carrying an `ErrorResponse`.
pub open spec fn error_answer(status: u16, error: Seq<char>, message: Seq<char>) -> ResponseView {
    answer(status, BodyView::Error { error, message })
}

/// The answer carrying a successful `OutcomeResponse`.
pub open spec fn success_answer(message: Seq<char>) -> ResponseView {
    answer(STATUS_OK, BodyView::Outcome { success: true, message })
}

/// "Machine with ID <id> not found"
pub open spec fn missing_machine_text(id: u128) -> Seq<char> {
    "Machine with ID "@ + id_text(id) + " not found"@
}

/// The answer for a request about a machine the store does not hold.
pub open spec fn not_found_answer(id: u128) -> ResponseView {
    error_answer(STATUS_NOT_FOUND, "Not Found"@, missing_machine_text(id))
}

/// The answer for a request the store failed with the error text `e`.
pub open spec fn database_error_answer(e: Seq<char>) -> ResponseView {
    error_answer(STATUS_INTERNAL_ERROR, "Database Error"@, e)
}

/// The answer carrying an `ErrorResponse`.
pub fn error_response(status: u16, error: &str, message: String) -> (r: ApiResponse)
    ensures
        r@ == error_answer(status, error@, message@),
{
    ApiResponse { status, body: Body::Error(ErrorResponse { error: text(error), message }) }
}

/// The answer carrying a successful `OutcomeResponse`.
pub fn success_response(message: String) -> (r: ApiResponse)
    ensures
        r@ == success_answer(message@),
{
    ApiResponse { status: STATUS_OK, body: Body::Outcome(OutcomeResponse { success: true, message }) }
}

/// "Machine with ID <id> not found"
pub fn missing_machine_message(id: u128) -> (m: String)
    ensures
        m@ == missing_machine_text(id),
{
    let id_str = machine_id_text(id);
    concat3("Machine with ID ", id_str.as_str(), " not found")
}

/// The answer for a request about a machine the store does not hold.
pub fn not_found_response(id: u128) -> (r: ApiResponse)
    ensures
        r@ == not_found_answer(id),
{
    error_response(STATUS_NOT_FOUND, "Not Found", missing_machine_message(id))
}

/// The answer for a request the store failed with the error text `e`.
pub fn database_error_response(e: &String) -> (r: ApiResponse)
    ensures
        r@ == database_error_answer(e@),
{
    error_response(STATUS_INTERNAL_ERROR, "Database Error", e.clone())
}

/// `<prefix><machine id>`, such as "Status updated for machine <id>".
pub fn message_about(prefix: &str, id: u128) -> (m: String)
    ensures
        m@ == prefix@ + id_text(id),
{
    let id_str = machine_id_text(id);
    concat2(prefix, id_str.as_str())
}

} // verus!
