use vstd::prelude::*;
use vstd::string::*;

use crate::ids::TextId;
use crate::protocol::{status_of, Reply, ServiceError};

verus! {

/// The body of an insert request.
#[derive(Clone, Debug, PartialEq, Eq)]
pub struct Message {
    pub data: String,
}

/// A record's text, as a get answers it.
#[derive(Clone, Debug, PartialEq, Eq)]
pub struct TextPayload {
    pub data: String,
}

/// The query of a search request.
#[derive(Clone, Debug, PartialEq, Eq)]
pub struct SearchParams {
    pub term: String,
}

/// The answer to a search.
#[derive(Clone, Debug, PartialEq, Eq)]
pub struct SearchResponse {
    pub found: bool,
}

/// The answer to an insert: the new record's identifier.
#[derive(Clone, Debug, PartialEq, Eq)]
pub struct InsertedResponse {
    pub id: TextId,
}

/// The body of every failed request: a machine-readable kind and a
/// message for people.
#[derive(Clone, Debug, PartialEq, Eq)]
pub struct ErrorResponse {
    pub kind: String,
    pub error: String,
}

/// A record as the store keeps it.
#[derive(Clone, Debug, PartialEq, Eq)]
pub struct Text {
    pub id: TextId,
    pub data: String,
}

impl Text {
    pub fn new(id: TextId, data: String) -> (r: Text)
        ensures
            r.id == id,
            r.data@ == data@,
    {
        Text { id, data }
    }
}

/// The message that an error answers with; each error has its own.
pub open spec fn error_message(e: ServiceError) -> Seq<char> {
    match e {
        ServiceError::NotFound => "text not found"@,
        ServiceError::MalformedId => "invalid uuid"@,
        ServiceError::InvalidTerm => "term is not allowed to contain whitespaces"@,
        ServiceError::InfrastructureFailure => "internal error"@,
        ServiceError::InvariantViolation => "multiple records for one id"@,
    }
}

/// The machine-readable kind of an error.
pub open spec fn error_kind(e: ServiceError) -> Seq<char> {
    match e {
        ServiceError::NotFound => "not_found"@,
        ServiceError::MalformedId => "invalid_input"@,
        ServiceError::InvalidTerm => "invalid_input"@,
        ServiceError::InfrastructureFailure => "infrastructure_failure"@,
        ServiceError::InvariantViolation => "invariant_violation"@,
    }
}

fn kind_of(e: ServiceError) -> (r: String)
    ensures
        r@ == error_kind(e),
{
    match e {
        ServiceError::NotFound => String::from_str("not_found"),
        ServiceError::MalformedId => String::from_str("invalid_input"),
        ServiceError::InvalidTerm => String::from_str("invalid_input"),
        ServiceError::InfrastructureFailure => String::from_str("infrastructure_failure"),
        ServiceError::InvariantViolation => String::from_str("invariant_violation"),
    }
}

impl ErrorResponse {
    /// The body that answers `e`: its kind and its message.
    pub fn for_error(e: ServiceError) -> (r: ErrorResponse)
        ensures
            r.kind@ == error_kind(e),
            r.error@ == error_message(e),
    {
        let error = match e {
            ServiceError::NotFound => String::from_str("text not found"),
            ServiceError::MalformedId => String::from_str("invalid uuid"),
            ServiceError::InvalidTerm => String::from_str("term is not allowed to contain whitespaces"),
            ServiceError::InfrastructureFailure => String::from_str("internal error"),
            ServiceError::InvariantViolation => String::from_str("multiple records for one id"),
        };
        ErrorResponse { kind: kind_of(e), error }
    }
}

/// The body of the answer to an unexpected server error.
pub fn internal_error() -> (r: ErrorResponse)
    ensures
        r.kind@ == error_kind(ServiceError::InfrastructureFailure),
        r.error@ == "internal error"@,
{
    ErrorResponse::for_error(ServiceError::InfrastructureFailure)
}

/// The body of the answer to a request that names no operation.
pub fn not_found(method: &str, path: &str) -> (r: ErrorResponse)
    ensures
        r.kind@ == error_kind(ServiceError::NotFound),
        r.error@ == method@ + " "@ + path@ + " is not a valid operation"@,
{
    let mut error = String::from_str(method);
    error.append(" ");
    error.append(path);
    error.append(" is not a valid operation");
    ErrorResponse { kind: kind_of(ServiceError::NotFound), error }
}

/// The body of an answer.
#[derive(Clone, Debug, PartialEq, Eq)]
pub enum Body {
    Empty,
    Inserted(InsertedResponse),
    Text(TextPayload),
    Found(SearchResponse),
    Error(ErrorResponse),
}

/// Whether `b` is the body that answers `r`.
pub open spec fn body_answers(b: Body, r: Reply<Seq<char>>) -> bool {
    match r {
        Reply::Created(id) => b == Body::Inserted(InsertedResponse { id }),
        Reply::Text(s) => b is Text && b->Text_0.data@ == s,
        Reply::Found(f) => b == Body::Found(SearchResponse { found: f }),
        Reply::Deleted => b == Body::Empty,
        Reply::Failed(e) => b is Error && b->Error_0.kind@ == error_kind(e) && b->Error_0.error@
            == error_message(e),
    }
}

/// The HTTP status and body that answer a reply.
pub fn render(reply: Reply<String>) -> (r: (u16, Body))
    ensures
        r.0 == status_of(reply@),
        body_answers(r.1, reply@),
{
    let status = reply.status_code();
    let body = match reply {
        Reply::Created(id) => Body::Inserted(InsertedResponse { id }),
        Reply::Text(data) => Body::Text(TextPayload { data }),
        Reply::Found(found) => Body::Found(SearchResponse { found }),
        Reply::Deleted => Body::Empty,
        Reply::Failed(e) => Body::Error(ErrorResponse::for_error(e)),
    };
    (status, body)
}

} // verus!
