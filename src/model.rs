use vstd::prelude::*;

verus! {

/// A stored task row.
///
/// `id` is the UUID as a 128-bit integer (big-endian byte order), and
/// `created_at` counts microseconds since the Unix epoch in UTC.
#[derive(Debug)]
pub struct TaskModel {
    pub id: u128,
    pub title: String,
    pub content: String,
    pub created_at: Option<i64>,
}

/// A stored document row; identifiers are UUIDs as 128-bit integers.
#[derive(Debug)]
pub struct DocumentModel {
    pub id: u128,
    pub user_id: u128,
    pub doc_type: String,
    pub filename: String,
    pub created_at: Option<i64>,
}

} // verus!
