use vstd::prelude::*;
use crate::model::{DocumentModel, TaskModel};

verus! {

/// How the store failed.
#[derive(Debug)]
pub enum StoreErrorKind {
    /// Zero rows matched a point lookup.
    NotFound,
    /// The store rejected the statement (a constraint, a bad value).
    ConstraintViolation,
    /// The pool or the transport failed.
    ConnectivityFailure,
}

/// A failed store operation, with the store's own description of the cause.
#[derive(Debug)]
pub struct StoreError {
    pub kind: StoreErrorKind,
    pub detail: String,
}

/// The `status` word of an error envelope.
#[derive(Debug)]
pub enum FailureStatus {
    Error,
    Fail,
    NotFound,
}

impl FailureStatus {
    /// The word as it appears in the envelope.
    pub open spec fn spec_word(&self) -> Seq<char> {
        match self {
            FailureStatus::Error => "error"@,
            FailureStatus::Fail => "fail"@,
            FailureStatus::NotFound => "not found"@,
        }
    }

    /// Returns the word as it appears in the envelope.
    pub fn word(&self) -> (r: &'static str)
        ensures
            r@ == self.spec_word(),
    {
        match self {
            FailureStatus::Error => "error",
            FailureStatus::Fail => "fail",
            FailureStatus::NotFound => "not found",
        }
    }
}

/// What a success envelope carries under its resource-named field.
#[derive(Debug)]
pub enum Payload {
    /// `"message"`: a plain text.
    Message(String),
    /// `"task"`: one task.
    Task(TaskModel),
    /// `"task"`: a page of tasks.
    Tasks(Vec<TaskModel>),
    /// `"document"`: one document.
    Document(DocumentModel),
    /// `"documents"`: a page of documents.
    Documents(Vec<DocumentModel>),
}

/// A response: HTTP status code and envelope.
#[derive(Debug)]
pub enum Reply {
    /// 200 with `{status: "success", <resource>: payload}`.
    Success(Payload),
    /// 204 with an empty body.
    NoContent,
    /// An error code with `{status, message}`.
    Failure { code: u16, status: FailureStatus, message: String },
}

impl Reply {
    /// The HTTP status code of this reply.
    pub open spec fn spec_code(&self) -> u16 {
        match self {
            Reply::Success(_) => 200,
            Reply::NoContent => 204,
            Reply::Failure { code, .. } => *code,
        }
    }

    /// Returns the HTTP status code of this reply.
    pub fn code(&self) -> (r: u16)
        ensures
            r == self.spec_code(),
    {
        match self {
            Reply::Success(_) => 200,
            Reply::NoContent => 204,
            Reply::Failure { code, .. } => *code,
        }
    }
}

/// Whether `r` is an error envelope with this code, status and message.
pub open spec fn is_failure(
    r: Reply,
    code: u16,
    status: FailureStatus,
    message: Seq<char>,
) -> bool {
    match r {
        Reply::Failure { code: c, status: s, message: m } => c == code && s == status && m@ == message,
        _ => false,
    }
}

/// Joins a fixed prefix and a store's description of a failure.
pub fn describe(prefix: &str, detail: &String) -> (r: String)
    ensures
        r@ == prefix@ + detail@,
{
    String::from_str(prefix).concat(detail.as_str())
}

} // verus!
