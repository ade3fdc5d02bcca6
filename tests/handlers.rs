use task_api::handlers::{
    create_document, create_document_reply, create_task, create_task_reply, delete_documents_by_id,
    delete_reply, delete_task_by_id, document_insert, get_all_documents, get_all_documents_reply,
    get_all_tasks, get_all_tasks_reply, get_document_by_id, get_document_by_id_reply, get_task_by_id,
    get_task_by_id_reply, health_checker, merge_document, merge_task, update_document_by_id,
    update_document_merge, update_document_reply, update_task_by_id, update_task_merge,
    update_task_reply,
};
use task_api::ids::document_filename;
use task_api::model::{DocumentModel, TaskModel};
use task_api::query::Query;
use task_api::reply::{describe, FailureStatus, Payload, Reply, StoreError, StoreErrorKind};
use task_api::schema::{
    CreateDocumentSchema, CreateTaskSchema, FilterOptions, UpdateDocumentSchema, UpdateTaskSchema,
};

fn err(kind: StoreErrorKind, detail: &str) -> StoreError {
    StoreError { kind, detail: detail.to_string() }
}

fn task(id: u128, title: &str, content: &str) -> TaskModel {
    TaskModel { id, title: title.to_string(), content: content.to_string(), created_at: Some(5) }
}

fn doc(id: u128) -> DocumentModel {
    DocumentModel {
        id,
        user_id: 77,
        doc_type: "passport".to_string(),
        filename: "document_x.jpg".to_string(),
        created_at: Some(9),
    }
}

fn failure(r: &Reply) -> (u16, &'static str, String) {
    match r {
        Reply::Failure { code, status, message } => (*code, status.word(), message.clone()),
        _ => panic!("expected a failure envelope"),
    }
}

#[test]
fn health_check_is_static_success() {
    let r = health_checker();
    assert_eq!(r.code(), 200);
    match r {
        Reply::Success(Payload::Message(m)) => {
            assert_eq!(m, "Health check: API is up and running smoothly.")
        }
        _ => panic!("expected a message"),
    }
}

#[test]
fn create_task_binds_fields() {
    let q = create_task(CreateTaskSchema { title: "A".to_string(), content: "B".to_string() });
    match &q {
        Query::InsertTask { title, content } => {
            assert_eq!(title, "A");
            assert_eq!(content, "B");
        }
        _ => panic!("expected an insert"),
    }
    assert_eq!(
        q.sql(),
        "INSERT INTO tasks (title, content) VALUES ($1, $2) RETURNING id, title, content, created_at"
    );
}

#[test]
fn create_task_failure_is_server_error() {
    let r = create_task_reply(Err(err(StoreErrorKind::ConnectivityFailure, "PoolTimedOut")));
    assert_eq!(failure(&r), (500, "error", "Failed to create task: PoolTimedOut".to_string()));
}

#[test]
fn create_task_success_wraps_row() {
    let r = create_task_reply(Ok(task(3, "A", "B")));
    assert_eq!(r.code(), 200);
    assert!(matches!(r, Reply::Success(Payload::Task(t)) if t.id == 3 && t.title == "A"));
}

#[test]
fn list_tasks_uses_window() {
    let q = get_all_tasks(&FilterOptions { page: Some(2), limit: Some(5) });
    assert!(matches!(q, Query::ListTasks { limit: 5, offset: 5 }));
    assert_eq!(q.sql(), "SELECT id, title, content, created_at FROM tasks ORDER BY id LIMIT $1 OFFSET $2");
    let r = get_all_tasks_reply(Err(err(StoreErrorKind::ConnectivityFailure, "Io")));
    assert_eq!(failure(&r), (500, "error", "Io".to_string()));
    let r = get_all_tasks_reply(Ok(vec![]));
    assert!(matches!(r, Reply::Success(Payload::Tasks(v)) if v.is_empty()));
}

#[test]
fn get_task_missing_is_not_found() {
    assert!(matches!(get_task_by_id(9), Query::SelectTask { id: 9 }));
    let r = get_task_by_id_reply(Err(err(StoreErrorKind::NotFound, "RowNotFound")));
    assert_eq!(failure(&r), (404, "fail", "RowNotFound".to_string()));
    let r = get_task_by_id_reply(Err(err(StoreErrorKind::ConnectivityFailure, "Io")));
    assert_eq!(failure(&r), (500, "error", "Io".to_string()));
}

#[test]
fn merge_task_keeps_omitted_fields() {
    let m = merge_task(task(1, "A", "B"), UpdateTaskSchema { title: Some("C".to_string()), content: None });
    assert_eq!(m.id, 1);
    assert_eq!(m.title, "C");
    assert_eq!(m.content, "B");
    assert_eq!(m.created_at, Some(5));
}

#[test]
fn update_task_flow() {
    assert!(matches!(update_task_by_id(4), Query::SelectTask { id: 4 }));
    let body = UpdateTaskSchema { title: None, content: Some("D".to_string()) };
    match update_task_merge(4, body, Ok(task(4, "A", "B"))) {
        Ok(Query::UpdateTask { id, title, content }) => {
            assert_eq!(id, 4);
            assert_eq!(title, "A");
            assert_eq!(content, "D");
        }
        _ => panic!("expected an update statement"),
    }
    let body = UpdateTaskSchema { title: None, content: None };
    match update_task_merge(4, body, Err(err(StoreErrorKind::NotFound, "RowNotFound"))) {
        Err(r) => assert_eq!(failure(&r), (404, "not found", "Task not found: RowNotFound".to_string())),
        Ok(_) => panic!("expected a reply"),
    }
    let body = UpdateTaskSchema { title: None, content: None };
    match update_task_merge(4, body, Err(err(StoreErrorKind::ConnectivityFailure, "Io"))) {
        Err(r) => assert_eq!(failure(&r), (500, "error", "Failed to update task: Io".to_string())),
        Ok(_) => panic!("expected a reply"),
    }
    let r = update_task_reply(Err(err(StoreErrorKind::ConstraintViolation, "check")));
    assert_eq!(failure(&r), (500, "error", "Failed to update task: check".to_string()));
    let r = update_task_reply(Err(err(StoreErrorKind::NotFound, "RowNotFound")));
    assert_eq!(failure(&r), (500, "error", "Failed to update task: RowNotFound".to_string()));
}

#[test]
fn delete_replies() {
    assert!(matches!(delete_task_by_id(2), Query::DeleteTask { id: 2 }));
    assert!(matches!(delete_documents_by_id(2), Query::DeleteDocument { id: 2 }));
    assert_eq!(delete_reply(Ok(1)).code(), 204);
    let r = delete_reply(Ok(0));
    assert_eq!(failure(&r), (404, "fail", "Internal server error: RowNotFound".to_string()));
    let r = delete_reply(Err(err(StoreErrorKind::ConnectivityFailure, "Io")));
    assert_eq!(failure(&r), (404, "fail", "Internal server error: Io".to_string()));
}

#[test]
fn document_filename_is_hyphenated_token() {
    let name = document_filename(0xa1a2a3a4b1b2c1c2d1d2d3d4d5d6d7d8);
    assert_eq!(name, "document_a1a2a3a4-b1b2-c1c2-d1d2-d3d4d5d6d7d8.jpg");
    assert_eq!(document_filename(0), "document_00000000-0000-0000-0000-000000000000.jpg");
}

#[test]
fn document_insert_binds_fields() {
    let q = document_insert(CreateDocumentSchema { user_id: 12, doc_type: "passport".to_string() }, 0xff);
    match q {
        Query::InsertDocument { user_id, doc_type, filename } => {
            assert_eq!(user_id, 12);
            assert_eq!(doc_type, "passport");
            assert_eq!(filename, "document_00000000-0000-0000-0000-0000000000ff.jpg");
        }
        _ => panic!("expected an insert"),
    }
}

#[test]
fn create_document_uses_fresh_random_token() {
    let body = CreateDocumentSchema { user_id: 12, doc_type: "passport".to_string() };
    let a = create_document(body);
    let body = CreateDocumentSchema { user_id: 12, doc_type: "passport".to_string() };
    let b = create_document(body);
    let name = |q: &Query| match q {
        Query::InsertDocument { filename, .. } => filename.clone(),
        _ => panic!("expected an insert"),
    };
    let (na, nb) = (name(&a), name(&b));
    assert_ne!(na, nb);
    assert!(na.starts_with("document_") && na.ends_with(".jpg"));
    assert_eq!(na.len(), 49);
    assert_eq!(&na[23..24], "4");
}

#[test]
fn document_replies() {
    let r = create_document_reply(Err(err(StoreErrorKind::ConstraintViolation, "dup")));
    assert_eq!(failure(&r), (500, "error", "Failed to create document: dup".to_string()));
    assert!(matches!(create_document_reply(Ok(doc(1))), Reply::Success(Payload::Document(_))));
    assert!(matches!(
        get_all_documents(&FilterOptions { page: None, limit: Some(3) }),
        Query::ListDocuments { limit: 3, offset: 0 }
    ));
    let r = get_all_documents_reply(Err(err(StoreErrorKind::ConnectivityFailure, "Io")));
    assert_eq!(failure(&r), (500, "error", "Failed to get documents: Io".to_string()));
    assert!(matches!(get_document_by_id(6), Query::SelectDocument { id: 6 }));
    let r = get_document_by_id_reply(Err(err(StoreErrorKind::NotFound, "RowNotFound")));
    assert_eq!(failure(&r), (404, "fail", "Failed to get document: RowNotFound".to_string()));
    let r = get_document_by_id_reply(Err(err(StoreErrorKind::ConnectivityFailure, "Io")));
    assert_eq!(failure(&r), (500, "error", "Failed to get document: Io".to_string()));
}

#[test]
fn document_update_flow() {
    let m = merge_document(doc(1), UpdateDocumentSchema { user_id: Some(5), doc_type: None });
    assert_eq!((m.id, m.user_id, m.doc_type.as_str(), m.filename.as_str()), (1, 5, "passport", "document_x.jpg"));
    assert!(matches!(update_document_by_id(1), Query::SelectDocument { id: 1 }));
    let body = UpdateDocumentSchema { user_id: None, doc_type: Some("visa".to_string()) };
    match update_document_merge(1, body, Ok(doc(1))) {
        Ok(Query::UpdateDocument { id, user_id, doc_type }) => assert_eq!((id, user_id, doc_type.as_str()), (1, 77, "visa")),
        _ => panic!("expected an update statement"),
    }
    let body = UpdateDocumentSchema { user_id: None, doc_type: None };
    match update_document_merge(1, body, Err(err(StoreErrorKind::NotFound, "RowNotFound"))) {
        Err(r) => assert_eq!(failure(&r), (404, "not found", "Document not found: RowNotFound".to_string())),
        Ok(_) => panic!("expected a reply"),
    }
    let r = update_document_reply(Err(err(StoreErrorKind::ConnectivityFailure, "Io")));
    assert_eq!(failure(&r), (500, "error", "Failed to update document: Io".to_string()));
    let r = update_document_reply(Err(err(StoreErrorKind::NotFound, "RowNotFound")));
    assert_eq!(failure(&r), (500, "error", "Failed to update document: RowNotFound".to_string()));
    assert!(matches!(update_document_reply(Ok(doc(1))), Reply::Success(Payload::Document(_))));
}

#[test]
fn status_words_and_messages() {
    assert_eq!(FailureStatus::Error.word(), "error");
    assert_eq!(FailureStatus::Fail.word(), "fail");
    assert_eq!(FailureStatus::NotFound.word(), "not found");
    assert_eq!(describe("x: ", &"y".to_string()), "x: y");
}
