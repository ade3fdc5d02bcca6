use vstd::prelude::*;
use crate::handlers::merged;
use crate::model::TaskModel;
use crate::paging::{capped, requested_limit, requested_offset, requested_page, MAX_PARAM};
use crate::schema::FilterOptions;
use crate::schema::UpdateTaskSchema;
use crate::store::{created, has_id, ids_ascending, page_of, removed, rewritten, stamp};

verus! {

/// Two tasks created one after the other get different ids, both carry a
/// creation time, and the second one's is no earlier than the first one's.
pub proof fn lemma_sequential_creates(
    s0: Seq<TaskModel>,
    s1: Seq<TaskModel>,
    s2: Seq<TaskModel>,
    first: TaskModel,
    second: TaskModel,
)
    requires
        created(s0, s1, first),
        created(s1, s2, second),
    ensures
        first.id != second.id,
        first.created_at is Some,
        second.created_at is Some,
        stamp(first) <= stamp(second),
{
    let k = choose|k: int| 0 <= k <= s0.len() && s1 == s0.insert(k, first);
    assert(s1[k] == first);
    assert(stamp(s1[k]) <= stamp(second));
    if first.id == second.id {
        assert(s1[k].id == second.id);
        assert(has_id(s1, second.id));
    }
}

/// After a partial update built from the stored row `current`, the row of
/// that id holds each supplied field, and keeps the stored value of each
/// omitted one.
pub proof fn lemma_update_merges(
    s0: Seq<TaskModel>,
    s1: Seq<TaskModel>,
    current: TaskModel,
    body: UpdateTaskSchema,
)
    requires
        ids_ascending(s0),
        s0.contains(current),
        rewritten(
            s0,
            s1,
            current.id,
            merged(body.title, current.title),
            merged(body.content, current.content),
        ),
    ensures
        forall|j: int|
            0 <= j < s1.len() && #[trigger] s1[j].id == current.id ==> {
                &&& s1[j].created_at == current.created_at
                &&& s1[j].title == match body.title {
                    Some(v) => v,
                    None => current.title,
                }
                &&& s1[j].content == match body.content {
                    Some(v) => v,
                    None => current.content,
                }
            },
{
    let c = choose|c: int| 0 <= c < s0.len() && s0[c] == current;
    let i = choose|i: int|
        0 <= i < s0.len() && #[trigger] s0[i].id == current.id && s1 == s0.update(
            i,
            TaskModel {
                id: current.id,
                title: merged(body.title, current.title),
                content: merged(body.content, current.content),
                created_at: s0[i].created_at,
            },
        );
    assert(c == i) by {
        if c < i {
            assert(s0[c].id < s0[i].id);
        } else if i < c {
            assert(s0[i].id < s0[c].id);
        }
    }
    assert forall|j: int| 0 <= j < s1.len() && #[trigger] s1[j].id == current.id implies j == i by {
        if j < i {
            assert(s0[j].id < s0[i].id);
        } else if i < j {
            assert(s0[i].id < s0[j].id);
        }
    }
}

/// Listing page `page` (from 1) with page size `limit` yields at most
/// `limit` rows, in ascending id order, namely the rows that follow the
/// first `(page - 1) * limit`.
pub proof fn lemma_page(s: Seq<TaskModel>, limit: nat, page: nat)
    requires
        ids_ascending(s),
        page >= 1,
    ensures
        page_of(s, limit, ((page - 1) * limit) as nat).len() <= limit,
        ids_ascending(page_of(s, limit, ((page - 1) * limit) as nat)),
        forall|k: int|
            0 <= k < page_of(s, limit, ((page - 1) * limit) as nat).len() ==> #[trigger] page_of(
                s,
                limit,
                ((page - 1) * limit) as nat,
            )[k] == s[(page - 1) * limit + k],
{
    assert((page - 1) * limit >= 0) by (nonlinear_arith)
        requires
            page >= 1,
    ;
    let offset = ((page - 1) * limit) as nat;
    let p = page_of(s, limit, offset);
    assert forall|a: int, b: int| 0 <= a < b < p.len() implies #[trigger] p[a].id < #[trigger] p[b].id by {
        assert(p[a] == s[offset + a]);
        assert(p[b] == s[offset + b]);
    }
}

/// On a table of at most `MAX_PARAM` rows, the window computed from listing
/// options selects the same rows as the uncapped one: at most `limit` rows,
/// in ascending id order, those that follow the first `(page - 1) * limit`.
pub proof fn lemma_window_selects_page(s: Seq<TaskModel>, opts: FilterOptions)
    requires
        ids_ascending(s),
        s.len() <= MAX_PARAM,
    ensures
        page_of(s, capped(requested_limit(opts)), capped(requested_offset(opts)))
            == page_of(s, requested_limit(opts), requested_offset(opts)),
        page_of(s, requested_limit(opts), requested_offset(opts)).len() <= requested_limit(opts),
        ids_ascending(page_of(s, requested_limit(opts), requested_offset(opts))),
        forall|k: int|
            0 <= k < page_of(s, requested_limit(opts), requested_offset(opts)).len()
                ==> #[trigger] page_of(s, requested_limit(opts), requested_offset(opts))[k]
                == s[requested_offset(opts) + k],
{
    lemma_page(s, requested_limit(opts), requested_page(opts));
}

/// Deleting the same id twice: the second delete removes nothing.
pub proof fn lemma_second_delete_finds_nothing(
    s0: Seq<TaskModel>,
    s1: Seq<TaskModel>,
    s2: Seq<TaskModel>,
    id: u128,
    first: u64,
    second: u64,
)
    requires
        ids_ascending(s0),
        removed(s0, s1, id, first),
        removed(s1, s2, id, second),
    ensures
        second == 0,
        s2 == s1,
{
    if has_id(s0, id) {
        let i = choose|i: int| 0 <= i < s0.len() && #[trigger] s0[i].id == id && s1 == s0.remove(i);
        assert forall|j: int| 0 <= j < s1.len() implies #[trigger] s1[j].id != id by {
            if j < i {
                assert(s0[j].id < s0[i].id);
            } else {
                assert(s1[j] == s0[j + 1]);
                assert(s0[i].id < s0[j + 1].id);
            }
        }
    }
}

} // verus!
