use vstd::prelude::*;

verus! {

/// A statement for the store: the SQL text depends on the variant alone and
/// every caller-supplied value travels as a bound parameter.
#[derive(Debug)]
pub enum Query {
    /// `$1` title, `$2` content; returns the new row.
    InsertTask { title: String, content: String },
    /// `$1` limit, `$2` offset; rows ordered by id.
    ListTasks { limit: u64, offset: u64 },
    /// `$1` id.
    SelectTask { id: u128 },
    /// `$1` title, `$2` content, `$3` id; returns the new row.
    UpdateTask { id: u128, title: String, content: String },
    /// `$1` id; reports how many rows were removed.
    DeleteTask { id: u128 },
    /// `$1` user id, `$2` document type, `$3` filename; returns the new row.
    InsertDocument { user_id: u128, doc_type: String, filename: String },
    /// `$1` limit, `$2` offset; rows ordered by id.
    ListDocuments { limit: u64, offset: u64 },
    /// `$1` id.
    SelectDocument { id: u128 },
    /// `$1` user id, `$2` document type, `$3` id; returns the new row.
    UpdateDocument { id: u128, user_id: u128, doc_type: String },
    /// `$1` id; reports how many rows were removed.
    DeleteDocument { id: u128 },
}

impl Query {
    /// The SQL text of this statement.
    pub open spec fn spec_sql(&self) -> Seq<char> {
        match self {
            Query::InsertTask { .. } => "INSERT INTO tasks (title, content) VALUES ($1, $2) RETURNING id, title, content, created_at"@,
            Query::ListTasks { .. } => "SELECT id, title, content, created_at FROM tasks ORDER BY id LIMIT $1 OFFSET $2"@,
            Query::SelectTask { .. } => "SELECT id, title, content, created_at FROM tasks WHERE id = $1"@,
            Query::UpdateTask { .. } => "UPDATE tasks SET title = $1, content = $2 WHERE id = $3 RETURNING id, title, content, created_at"@,
            Query::DeleteTask { .. } => "DELETE FROM tasks WHERE id = $1"@,
            Query::InsertDocument { .. } => "INSERT INTO documents (user_id, doc_type, filename) VALUES ($1, $2, $3) RETURNING id, user_id, doc_type, filename, created_at"@,
            Query::ListDocuments { .. } => "SELECT id, user_id, doc_type, filename, created_at FROM documents ORDER BY id LIMIT $1 OFFSET $2"@,
            Query::SelectDocument { .. } => "SELECT id, user_id, doc_type, filename, created_at FROM documents WHERE id = $1"@,
            Query::UpdateDocument { .. } => "UPDATE documents SET user_id = $1, doc_type = $2 WHERE id = $3 RETURNING id, user_id, doc_type, filename, created_at"@,
            Query::DeleteDocument { .. } => "DELETE FROM documents WHERE id = $1"@,
        }
    }

    /// Returns the SQL text of this statement.
    pub fn sql(&self) -> (r: &'static str)
        ensures
            r@ == self.spec_sql(),
    {
        match self {
            Query::InsertTask { .. } => "INSERT INTO tasks (title, content) VALUES ($1, $2) RETURNING id, title, content, created_at",
            Query::ListTasks { .. } => "SELECT id, title, content, created_at FROM tasks ORDER BY id LIMIT $1 OFFSET $2",
            Query::SelectTask { .. } => "SELECT id, title, content, created_at FROM tasks WHERE id = $1",
            Query::UpdateTask { .. } => "UPDATE tasks SET title = $1, content = $2 WHERE id = $3 RETURNING id, title, content, created_at",
            Query::DeleteTask { .. } => "DELETE FROM tasks WHERE id = $1",
            Query::InsertDocument { .. } => "INSERT INTO documents (user_id, doc_type, filename) VALUES ($1, $2, $3) RETURNING id, user_id, doc_type, filename, created_at",
            Query::ListDocuments { .. } => "SELECT id, user_id, doc_type, filename, created_at FROM documents ORDER BY id LIMIT $1 OFFSET $2",
            Query::SelectDocument { .. } => "SELECT id, user_id, doc_type, filename, created_at FROM documents WHERE id = $1",
            Query::UpdateDocument { .. } => "UPDATE documents SET user_id = $1, doc_type = $2 WHERE id = $3 RETURNING id, user_id, doc_type, filename, created_at",
            Query::DeleteDocument { .. } => "DELETE FROM documents WHERE id = $1",
        }
    }
}

} // verus!
