use vstd::prelude::*;

verus! {

/// Input of task creation.
#[derive(Debug)]
pub struct CreateTaskSchema {
    pub title: String,
    pub content: String,
}

/// Input of document creation; the filename is generated by the service.
#[derive(Debug)]
pub struct CreateDocumentSchema {
    pub user_id: u128,
    pub doc_type: String,
}

/// Pagination options of a listing: a 1-based page and a page size.
#[derive(Debug)]
pub struct FilterOptions {
    pub page: Option<usize>,
    pub limit: Option<usize>,
}

/// Partial update of a task: an absent field keeps its stored value.
#[derive(Debug)]
pub struct UpdateTaskSchema {
    pub title: Option<String>,
    pub content: Option<String>,
}

/// Partial update of a document: an absent field keeps its stored value.
#[derive(Debug)]
pub struct UpdateDocumentSchema {
    pub user_id: Option<u128>,
    pub doc_type: Option<String>,
}

} // verus!
