use vstd::prelude::*;
use crate::ids::{
    document_filename, document_filename_of, random_uuid, RANDOM_VERSION_VARIANT, VERSION_VARIANT_MASK,
};
use crate::model::{DocumentModel, TaskModel};
use crate::paging::{page_window, capped, requested_limit, requested_offset};
use crate::query::Query;
use crate::reply::{describe, is_failure, FailureStatus, Payload, Reply, StoreError, StoreErrorKind};
use crate::schema::{
    CreateDocumentSchema, CreateTaskSchema, FilterOptions, UpdateDocumentSchema, UpdateTaskSchema,
};

verus! {

/// The value a field holds after a partial update: the supplied one if
/// present, otherwise the stored one.
pub open spec fn merged<T>(supplied: Option<T>, stored: T) -> T {
    match supplied {
        Some(v) => v,
        None => stored,
    }
}

/// Whether the store reported that no row matched.
pub open spec fn is_not_found(e: StoreError) -> bool {
    e.kind is NotFound
}

fn not_found(e: &StoreError) -> (r: bool)
    ensures
        r == is_not_found(*e),
{
    match e.kind {
        StoreErrorKind::NotFound => true,
        _ => false,
    }
}

/// The static reply of the health check.
pub fn health_checker() -> (r: Reply)
    ensures
        match r {
            Reply::Success(Payload::Message(m)) => m@ == "Health check: API is up and running smoothly."@,
            _ => false,
        },
{
    Reply::Success(Payload::Message(String::from_str("Health check: API is up and running smoothly.")))
}

// ---------------------------------------------------------------- tasks

/// The statement that creates a task from its input.
pub fn create_task(body: CreateTaskSchema) -> (q: Query)
    ensures
        q == (Query::InsertTask { title: body.title, content: body.content }),
{
    Query::InsertTask { title: body.title, content: body.content }
}

/// The reply to a task creation, given what the insert returned.
pub fn create_task_reply(outcome: Result<TaskModel, StoreError>) -> (r: Reply)
    ensures
        match outcome {
            Ok(t) => r == Reply::Success(Payload::Task(t)),
            Err(e) => is_failure(r, 500, FailureStatus::Error, "Failed to create task: "@ + e.detail@),
        },
{
    match outcome {
        Ok(t) => Reply::Success(Payload::Task(t)),
        Err(e) => Reply::Failure {
            code: 500,
            status: FailureStatus::Error,
            message: describe("Failed to create task: ", &e.detail),
        },
    }
}

/// The statement that lists one page of tasks, ordered by id.
pub fn get_all_tasks(opts: &FilterOptions) -> (q: Query)
    ensures
        q == (Query::ListTasks {
            limit: capped(requested_limit(*opts)) as u64,
            offset: capped(requested_offset(*opts)) as u64,
        }),
{
    let w = page_window(opts);
    Query::ListTasks { limit: w.limit, offset: w.offset }
}

/// The reply to a task listing, given the rows or the store's failure.
pub fn get_all_tasks_reply(outcome: Result<Vec<TaskModel>, StoreError>) -> (r: Reply)
    ensures
        match outcome {
            Ok(rows) => r == Reply::Success(Payload::Tasks(rows)),
            Err(e) => is_failure(r, 500, FailureStatus::Error, e.detail@),
        },
{
    match outcome {
        Ok(rows) => Reply::Success(Payload::Tasks(rows)),
        Err(e) => Reply::Failure { code: 500, status: FailureStatus::Error, message: e.detail },
    }
}

/// The statement that looks a task up by id.
pub fn get_task_by_id(id: u128) -> (q: Query)
    ensures
        q == (Query::SelectTask { id }),
{
    Query::SelectTask { id }
}

/// The reply to a task lookup: a missing row is a 404 `fail`, any other
/// failure a 500 `error`.
pub fn get_task_by_id_reply(outcome: Result<TaskModel, StoreError>) -> (r: Reply)
    ensures
        match outcome {
            Ok(t) => r == Reply::Success(Payload::Task(t)),
            Err(e) => if is_not_found(e) {
                is_failure(r, 404, FailureStatus::Fail, e.detail@)
            } else {
                is_failure(r, 500, FailureStatus::Error, e.detail@)
            },
        },
{
    match outcome {
        Ok(t) => Reply::Success(Payload::Task(t)),
        Err(e) => if not_found(&e) {
            Reply::Failure { code: 404, status: FailureStatus::Fail, message: e.detail }
        } else {
            Reply::Failure { code: 500, status: FailureStatus::Error, message: e.detail }
        },
    }
}

/// A task after a partial update: each supplied field replaces the stored
/// one, each absent field keeps it; id and creation time never change.
pub fn merge_task(current: TaskModel, body: UpdateTaskSchema) -> (t: TaskModel)
    ensures
        t.id == current.id,
        t.created_at == current.created_at,
        t.title == merged(body.title, current.title),
        t.content == merged(body.content, current.content),
{
    let title = match body.title {
        Some(v) => v,
        None => current.title,
    };
    let content = match body.content {
        Some(v) => v,
        None => current.content,
    };
    TaskModel { id: current.id, title, content, created_at: current.created_at }
}

/// The first step of a task update: fetch the stored row.
pub fn update_task_by_id(id: u128) -> (q: Query)
    ensures
        q == (Query::SelectTask { id }),
{
    Query::SelectTask { id }
}

/// The second step of a task update: given the fetched row, the statement
/// that writes the merged fields, or the reply when the row could not be read.
pub fn update_task_merge(id: u128, body: UpdateTaskSchema, fetched: Result<TaskModel, StoreError>) -> (r: Result<Query, Reply>)
    ensures
        match fetched {
            Ok(t) => r == Ok::<Query, Reply>(Query::UpdateTask {
                id,
                title: merged(body.title, t.title),
                content: merged(body.content, t.content),
            }),
            Err(e) => match r {
                Ok(_) => false,
                Err(reply) => if is_not_found(e) {
                    is_failure(reply, 404, FailureStatus::NotFound, "Task not found: "@ + e.detail@)
                } else {
                    is_failure(reply, 500, FailureStatus::Error, "Failed to update task: "@ + e.detail@)
                },
            },
        },
{
    match fetched {
        Ok(t) => {
            let m = merge_task(t, body);
            Ok(Query::UpdateTask { id, title: m.title, content: m.content })
        },
        Err(e) => Err(update_failure("Task not found: ", "Failed to update task: ", e)),
    }
}

/// The last step of a task update: the reply, given what the write returned;
/// any failure of the write is a server error.
pub fn update_task_reply(outcome: Result<TaskModel, StoreError>) -> (r: Reply)
    ensures
        match outcome {
            Ok(t) => r == Reply::Success(Payload::Task(t)),
            Err(e) => is_failure(r, 500, FailureStatus::Error, "Failed to update task: "@ + e.detail@),
        },
{
    match outcome {
        Ok(t) => Reply::Success(Payload::Task(t)),
        Err(e) => Reply::Failure {
            code: 500,
            status: FailureStatus::Error,
            message: describe("Failed to update task: ", &e.detail),
        },
    }
}

/// The reply when the row to update could not be read: a missing row is a
/// 404 `not found`, any other failure a 500 `error`.
fn update_failure(missing: &str, failed: &str, e: StoreError) -> (r: Reply)
    ensures
        if is_not_found(e) {
            is_failure(r, 404, FailureStatus::NotFound, missing@ + e.detail@)
        } else {
            is_failure(r, 500, FailureStatus::Error, failed@ + e.detail@)
        },
{
    if not_found(&e) {
        Reply::Failure { code: 404, status: FailureStatus::NotFound, message: describe(missing, &e.detail) }
    } else {
        Reply::Failure { code: 500, status: FailureStatus::Error, message: describe(failed, &e.detail) }
    }
}

/// The statement that deletes a task by id.
pub fn delete_task_by_id(id: u128) -> (q: Query)
    ensures
        q == (Query::DeleteTask { id }),
{
    Query::DeleteTask { id }
}

/// The message of a delete that matched no row.
pub open spec fn nothing_deleted() -> Seq<char> {
    "Internal server error: RowNotFound"@
}

/// The reply to a delete, given how many rows it removed: 204 when a row
/// went, otherwise a 404 `fail` (a delete of a missing id is not a no-op).
pub fn delete_reply(outcome: Result<u64, StoreError>) -> (r: Reply)
    ensures
        match outcome {
            Ok(n) => if n > 0 {
                r == Reply::NoContent
            } else {
                is_failure(r, 404, FailureStatus::Fail, nothing_deleted())
            },
            Err(e) => is_failure(r, 404, FailureStatus::Fail, "Internal server error: "@ + e.detail@),
        },
{
    match outcome {
        Ok(n) => if n > 0 {
            Reply::NoContent
        } else {
            Reply::Failure {
                code: 404,
                status: FailureStatus::Fail,
                message: String::from_str("Internal server error: RowNotFound"),
            }
        },
        Err(e) => Reply::Failure {
            code: 404,
            status: FailureStatus::Fail,
            message: describe("Internal server error: ", &e.detail),
        },
    }
}

// ------------------------------------------------------------ documents

/// The statement that creates a document whose filename is built from `token`.
pub fn document_insert(body: CreateDocumentSchema, token: u128) -> (q: Query)
    ensures
        match q {
            Query::InsertDocument { user_id, doc_type, filename } => user_id == body.user_id
                && doc_type == body.doc_type && filename@ == document_filename_of(token),
            _ => false,
        },
{
    Query::InsertDocument {
        user_id: body.user_id,
        doc_type: body.doc_type,
        filename: document_filename(token),
    }
}

/// The statement that creates a document, its filename built from a fresh
/// random identifier.
pub fn create_document(body: CreateDocumentSchema) -> (q: Query)
    ensures
        match q {
            Query::InsertDocument { user_id, doc_type, filename } => user_id == body.user_id
                && doc_type == body.doc_type && exists|token: u128|
                token & VERSION_VARIANT_MASK == RANDOM_VERSION_VARIANT
                    && filename@ == document_filename_of(token),
            _ => false,
        },
{
    let token = random_uuid();
    document_insert(body, token)
}

/// The reply to a document creation, given what the insert returned.
pub fn create_document_reply(outcome: Result<DocumentModel, StoreError>) -> (r: Reply)
    ensures
        match outcome {
            Ok(d) => r == Reply::Success(Payload::Document(d)),
            Err(e) => is_failure(r, 500, FailureStatus::Error, "Failed to create document: "@ + e.detail@),
        },
{
    match outcome {
        Ok(d) => Reply::Success(Payload::Document(d)),
        Err(e) => Reply::Failure {
            code: 500,
            status: FailureStatus::Error,
            message: describe("Failed to create document: ", &e.detail),
        },
    }
}

/// The statement that lists one page of documents, ordered by id.
pub fn get_all_documents(opts: &FilterOptions) -> (q: Query)
    ensures
        q == (Query::ListDocuments {
            limit: capped(requested_limit(*opts)) as u64,
            offset: capped(requested_offset(*opts)) as u64,
        }),
{
    let w = page_window(opts);
    Query::ListDocuments { limit: w.limit, offset: w.offset }
}

/// The reply to a document listing, given the rows or the store's failure.
pub fn get_all_documents_reply(outcome: Result<Vec<DocumentModel>, StoreError>) -> (r: Reply)
    ensures
        match outcome {
            Ok(rows) => r == Reply::Success(Payload::Documents(rows)),
            Err(e) => is_failure(r, 500, FailureStatus::Error, "Failed to get documents: "@ + e.detail@),
        },
{
    match outcome {
        Ok(rows) => Reply::Success(Payload::Documents(rows)),
        Err(e) => Reply::Failure {
            code: 500,
            status: FailureStatus::Error,
            message: describe("Failed to get documents: ", &e.detail),
        },
    }
}

/// The statement that looks a document up by id.
pub fn get_document_by_id(id: u128) -> (q: Query)
    ensures
        q == (Query::SelectDocument { id }),
{
    Query::SelectDocument { id }
}

/// The reply to a document lookup: a missing row is a 404 `fail`, any
/// other failure a 500 `error`.
pub fn get_document_by_id_reply(outcome: Result<DocumentModel, StoreError>) -> (r: Reply)
    ensures
        match outcome {
            Ok(d) => r == Reply::Success(Payload::Document(d)),
            Err(e) => if is_not_found(e) {
                is_failure(r, 404, FailureStatus::Fail, "Failed to get document: "@ + e.detail@)
            } else {
                is_failure(r, 500, FailureStatus::Error, "Failed to get document: "@ + e.detail@)
            },
        },
{
    match outcome {
        Ok(d) => Reply::Success(Payload::Document(d)),
        Err(e) => {
            let message = describe("Failed to get document: ", &e.detail);
            if not_found(&e) {
                Reply::Failure { code: 404, status: FailureStatus::Fail, message }
            } else {
                Reply::Failure { code: 500, status: FailureStatus::Error, message }
            }
        },
    }
}

/// A document after a partial update: owner and type follow the update where
/// supplied; id, filename and creation time never change.
pub fn merge_document(current: DocumentModel, body: UpdateDocumentSchema) -> (d: DocumentModel)
    ensures
        d.id == current.id,
        d.filename == current.filename,
        d.created_at == current.created_at,
        d.user_id == merged(body.user_id, current.user_id),
        d.doc_type == merged(body.doc_type, current.doc_type),
{
    let user_id = match body.user_id {
        Some(v) => v,
        None => current.user_id,
    };
    let doc_type = match body.doc_type {
        Some(v) => v,
        None => current.doc_type,
    };
    DocumentModel {
        id: current.id,
        user_id,
        doc_type,
        filename: current.filename,
        created_at: current.created_at,
    }
}

/// The first step of a document update: fetch the stored row.
pub fn update_document_by_id(id: u128) -> (q: Query)
    ensures
        q == (Query::SelectDocument { id }),
{
    Query::SelectDocument { id }
}

/// The second step of a document update: given the fetched row, the
/// statement that writes the merged fields, or the reply when the row could
/// not be read.
pub fn update_document_merge(id: u128, body: UpdateDocumentSchema, fetched: Result<DocumentModel, StoreError>) -> (r: Result<Query, Reply>)
    ensures
        match fetched {
            Ok(d) => r == Ok::<Query, Reply>(Query::UpdateDocument {
                id,
                user_id: merged(body.user_id, d.user_id),
                doc_type: merged(body.doc_type, d.doc_type),
            }),
            Err(e) => match r {
                Ok(_) => false,
                Err(reply) => if is_not_found(e) {
                    is_failure(reply, 404, FailureStatus::NotFound, "Document not found: "@ + e.detail@)
                } else {
                    is_failure(reply, 500, FailureStatus::Error, "Failed to update document: "@ + e.detail@)
                },
            },
        },
{
    match fetched {
        Ok(d) => {
            let m = merge_document(d, body);
            Ok(Query::UpdateDocument { id, user_id: m.user_id, doc_type: m.doc_type })
        },
        Err(e) => Err(update_failure("Document not found: ", "Failed to update document: ", e)),
    }
}

/// The last step of a document update: the reply, given what the write
/// returned; any failure of the write is a server error.
pub fn update_document_reply(outcome: Result<DocumentModel, StoreError>) -> (r: Reply)
    ensures
        match outcome {
            Ok(d) => r == Reply::Success(Payload::Document(d)),
            Err(e) => is_failure(r, 500, FailureStatus::Error, "Failed to update document: "@ + e.detail@),
        },
{
    match outcome {
        Ok(d) => Reply::Success(Payload::Document(d)),
        Err(e) => Reply::Failure {
            code: 500,
            status: FailureStatus::Error,
            message: describe("Failed to update document: ", &e.detail),
        },
    }
}

/// The statement that deletes a document by id.
pub fn delete_documents_by_id(id: u128) -> (q: Query)
    ensures
        q == (Query::DeleteDocument { id }),
{
    Query::DeleteDocument { id }
}

} // verus!
