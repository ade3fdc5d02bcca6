use vstd::prelude::*;
use crate::model::TaskModel;
use crate::reply::{StoreError, StoreErrorKind};

verus! {

/// Whether ids strictly ascend along `s` (so no id occurs twice).
pub open spec fn ids_ascending(s: Seq<TaskModel>) -> bool {
    forall|i: int, j: int| 0 <= i < j < s.len() ==> #[trigger] s[i].id < #[trigger] s[j].id
}

/// Whether some row of `s` has this id.
pub open spec fn has_id(s: Seq<TaskModel>, id: u128) -> bool {
    exists|i: int| 0 <= i < s.len() && #[trigger] s[i].id == id
}

/// The creation time of a row; a row without one counts as earliest.
pub open spec fn stamp(t: TaskModel) -> int {
    match t.created_at {
        Some(c) => c as int,
        None => i64::MIN as int,
    }
}

/// The rows a listing returns: at most `limit` rows after the first `offset`.
pub open spec fn page_of(s: Seq<TaskModel>, limit: nat, offset: nat) -> Seq<TaskModel> {
    if offset >= s.len() {
        Seq::empty()
    } else if offset + limit >= s.len() {
        s.subrange(offset as int, s.len() as int)
    } else {
        s.subrange(offset as int, (offset + limit) as int)
    }
}

/// `after` is `before` with the new row `t` added: its id was unused and its
/// creation time is no earlier than that of any row already there.
pub open spec fn created(before: Seq<TaskModel>, after: Seq<TaskModel>, t: TaskModel) -> bool {
    &&& !has_id(before, t.id)
    &&& t.created_at is Some
    &&& exists|k: int| 0 <= k <= before.len() && after == before.insert(k, t)
    &&& forall|i: int| 0 <= i < before.len() ==> stamp(#[trigger] before[i]) <= stamp(t)
}

/// `after` is `before` with the row of this id given a new title and content.
pub open spec fn rewritten(
    before: Seq<TaskModel>,
    after: Seq<TaskModel>,
    id: u128,
    title: String,
    content: String,
) -> bool {
    exists|i: int|
        0 <= i < before.len() && #[trigger] before[i].id == id && after == before.update(
            i,
            TaskModel { id, title, content, created_at: before[i].created_at },
        )
}

/// `after` is `before` without the rows of this id, `n` of them.
pub open spec fn removed(before: Seq<TaskModel>, after: Seq<TaskModel>, id: u128, n: u64) -> bool {
    if has_id(before, id) {
        n == 1 && exists|i: int| 0 <= i < before.len() && #[trigger] before[i].id == id && after == before.remove(i)
    } else {
        n == 0 && after == before
    }
}

/// A task table held in memory, with the semantics of the store: rows kept
/// in ascending id order, ids unique, creation times assigned on insert and
/// never earlier than those already assigned.
pub struct TaskTable {
    rows: Vec<TaskModel>,
    latest: i64,
}

impl View for TaskTable {
    type V = Seq<TaskModel>;

    closed spec fn view(&self) -> Seq<TaskModel> {
        self.rows@
    }
}

fn copy_task(t: &TaskModel) -> (r: TaskModel)
    ensures
        r == *t,
{
    TaskModel { id: t.id, title: t.title.clone(), content: t.content.clone(), created_at: t.created_at }
}

impl TaskTable {
    /// The latest creation time handed out so far.
    pub closed spec fn spec_latest(&self) -> int {
        self.latest as int
    }

    /// Rows ascend by id and every row has a creation time no later than the latest.
    pub open spec fn wf(&self) -> bool {
        &&& ids_ascending(self@)
        &&& forall|i: int|
            0 <= i < self@.len() ==> (#[trigger] self@[i]).created_at is Some && stamp(self@[i])
                <= self.spec_latest()
    }

    /// An empty table.
    pub fn new() -> (t: Self)
        ensures
            t.wf(),
            t@ == Seq::<TaskModel>::empty(),
    {
        TaskTable { rows: Vec::new(), latest: i64::MIN }
    }

    /// How many rows the table holds.
    pub fn len(&self) -> (n: usize)
        ensures
            n == self@.len(),
    {
        self.rows.len()
    }

    /// Adds a task under `id`, created at `now` (or at the latest time
    /// already handed out, if that is later). Fails when the id is taken.
    pub fn insert(&mut self, id: u128, now: i64, title: String, content: String) -> (r: Result<TaskModel, StoreError>)
        requires
            old(self).wf(),
        ensures
            final(self).wf(),
            match r {
                Ok(t) => {
                    &&& t.id == id && t.title == title && t.content == content
                    &&& stamp(t) == if now > old(self).spec_latest() { now as int } else { old(self).spec_latest() }
                    &&& created(old(self)@, final(self)@, t)
                },
                Err(e) => has_id(old(self)@, id) && e.kind is ConstraintViolation && final(self)@ == old(self)@,
            },
    {
        let mut k: usize = 0;
        while k < self.rows.len() && self.rows[k].id < id
            invariant
                self.wf(),
                k <= self.rows.len(),
                forall|i: int| 0 <= i < k ==> (#[trigger] self.rows@[i]).id < id,
            decreases self.rows.len() - k,
        {
            k = k + 1;
        }
        if k < self.rows.len() && self.rows[k].id == id {
            return Err(StoreError {
                kind: StoreErrorKind::ConstraintViolation,
                detail: String::from_str("duplicate key value violates unique constraint \"tasks_pkey\""),
            });
        }
        assert(!has_id(self@, id)) by {
            assert forall|i: int| 0 <= i < self@.len() implies #[trigger] self@[i].id != id by {
                if i >= k {
                    assert(self@[i].id >= self@[k as int].id);
                }
            }
        }
        let at: i64 = if now > self.latest { now } else { self.latest };
        let t = TaskModel { id, title, content, created_at: Some(at) };
        let ghost before = self@;
        self.rows.insert(k, copy_task(&t));
        self.latest = at;
        assert(self@ == before.insert(k as int, t));
        assert forall|i: int| 0 <= i < before.len() implies stamp(#[trigger] before[i]) <= stamp(t) by {}
        assert forall|i: int, j: int| 0 <= i < j < self@.len() implies #[trigger] self@[i].id < #[trigger] self@[j].id by {
            if j < k {
            } else if j == k {
            } else if i < k {
                assert(self@[j] == before[j - 1]);
            } else if i == k {
                assert(self@[j] == before[j - 1]);
            } else {
                assert(self@[j] == before[j - 1]);
                assert(self@[i] == before[i - 1]);
            }
        }
        assert forall|i: int| 0 <= i < self@.len() implies (#[trigger] self@[i]).created_at is Some
            && stamp(self@[i]) <= self.spec_latest() by {
            if i < k {
            } else if i > k {
                assert(self@[i] == before[i - 1]);
            }
        }
        Ok(t)
    }

    /// Returns the rows of one page: at most `limit` rows after the first `offset`.
    pub fn list_page(&self, limit: u64, offset: u64) -> (r: Vec<TaskModel>)
        ensures
            r@ == page_of(self@, limit as nat, offset as nat),
    {
        let len = self.rows.len();
        let mut out: Vec<TaskModel> = Vec::new();
        if (offset as u128) >= (len as u128) {
            return out;
        }
        let start: usize = offset as usize;
        let end: usize = if (limit as u128) >= ((len - start) as u128) { len } else { start + limit as usize };
        let mut i: usize = start;
        while i < end
            invariant
                start <= i <= end <= len,
                len == self.rows@.len(),
                out@ == self@.subrange(start as int, i as int),
            decreases end - i,
        {
            out.push(copy_task(&self.rows[i]));
            i = i + 1;
            assert(out@ =~= self@.subrange(start as int, i as int));
        }
        out
    }

    /// Looks a row up by id; fails with not-found when none has it.
    pub fn find(&self, id: u128) -> (r: Result<TaskModel, StoreError>)
        ensures
            match r {
                Ok(t) => t.id == id && exists|i: int| 0 <= i < self@.len() && self@[i] == t,
                Err(e) => !has_id(self@, id) && e.kind is NotFound && e.detail@ == "RowNotFound"@,
            },
    {
        let mut i: usize = 0;
        while i < self.rows.len()
            invariant
                i <= self.rows.len(),
                forall|j: int| 0 <= j < i ==> (#[trigger] self.rows@[j]).id != id,
            decreases self.rows.len() - i,
        {
            if self.rows[i].id == id {
                let t = copy_task(&self.rows[i]);
                assert(self@[i as int] == t);
                return Ok(t);
            }
            i = i + 1;
        }
        Err(StoreError { kind: StoreErrorKind::NotFound, detail: String::from_str("RowNotFound") })
    }

    /// Gives the row of this id a new title and content and returns it;
    /// fails with not-found when no row has the id.
    pub fn update(&mut self, id: u128, title: String, content: String) -> (r: Result<TaskModel, StoreError>)
        requires
            old(self).wf(),
        ensures
            final(self).wf(),
            match r {
                Ok(t) => t.id == id && t.title == title && t.content == content
                    && rewritten(old(self)@, final(self)@, id, title, content)
                    && exists|i: int| 0 <= i < final(self)@.len() && final(self)@[i] == t,
                Err(e) => !has_id(old(self)@, id) && e.kind is NotFound && e.detail@ == "RowNotFound"@
                    && final(self)@ == old(self)@,
            },
    {
        let mut i: usize = 0;
        while i < self.rows.len()
            invariant
                self.wf(),
                self@ == old(self)@,
                i <= self.rows.len(),
                forall|j: int| 0 <= j < i ==> (#[trigger] self.rows@[j]).id != id,
            decreases self.rows.len() - i,
        {
            if self.rows[i].id == id {
                let t = TaskModel { id, title, content, created_at: self.rows[i].created_at };
                let ghost before = self@;
                self.rows.set(i, copy_task(&t));
                assert(self@[i as int] == t);
                assert(before[i as int].id == id);
                assert forall|a: int, b: int| 0 <= a < b < self@.len() implies #[trigger] self@[a].id < #[trigger] self@[b].id by {
                    assert(before[a].id < before[b].id);
                }
                assert forall|a: int| 0 <= a < self@.len() implies (#[trigger] self@[a]).created_at is Some
                    && stamp(self@[a]) <= self.spec_latest() by {
                    assert(before[a].created_at is Some);
                }
                return Ok(t);
            }
            i = i + 1;
        }
        Err(StoreError { kind: StoreErrorKind::NotFound, detail: String::from_str("RowNotFound") })
    }

    /// Removes the row of this id and returns how many rows went (0 or 1).
    pub fn delete(&mut self, id: u128) -> (n: u64)
        requires
            old(self).wf(),
        ensures
            final(self).wf(),
            removed(old(self)@, final(self)@, id, n),
    {
        let mut i: usize = 0;
        while i < self.rows.len()
            invariant
                self.wf(),
                self@ == old(self)@,
                i <= self.rows.len(),
                forall|j: int| 0 <= j < i ==> (#[trigger] self.rows@[j]).id != id,
            decreases self.rows.len() - i,
        {
            if self.rows[i].id == id {
                let ghost before = self@;
                assert(before[i as int].id == id);
                self.rows.remove(i);
                assert forall|a: int, b: int| 0 <= a < b < self@.len() implies #[trigger] self@[a].id < #[trigger] self@[b].id by {
                    if a >= i {
                        assert(self@[a] == before[a + 1]);
                    }
                    if b >= i {
                        assert(self@[b] == before[b + 1]);
                    }
                }
                assert forall|a: int| 0 <= a < self@.len() implies (#[trigger] self@[a]).created_at is Some
                    && stamp(self@[a]) <= self.spec_latest() by {
                    if a >= i {
                        assert(self@[a] == before[a + 1]);
                    }
                }
                return 1;
            }
            i = i + 1;
        }
        0
    }
}

} // verus!
