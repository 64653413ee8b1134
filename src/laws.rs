use vstd::prelude::*;

use crate::collection::{add_post, change_status_post, load_post, remove_post};
use crate::store::{StoreError, TaskStore};
use crate::task::{label_of, status_of, Status, TaskView};

verus! {

/// Reading a stage back from its label gives the same stage.
pub proof fn label_round_trip(s: Status)
    ensures
        status_of(label_of(s)) == Some(s),
{
    reveal_strlit("Pending");
    reveal_strlit("In Progress");
    reveal_strlit("Uploaded");
    reveal_strlit("Completed");
    reveal_strlit("On Hold");
    reveal_strlit("Archived");
    assert("Pending"@.len() == 7 && "Uploaded"@.len() == 8 && "Archived"@.len() == 8);
    assert("Completed"@.len() == 9 && "In Progress"@.len() == 11 && "On Hold"@.len() == 7);
    assert("Pending"@[0] != "On Hold"@[0]);
    assert("Uploaded"@[0] != "Archived"@[0]);
}

/// Loading twice from a store that nothing changed in between gives the
/// same collection, and the same result, both times.
pub proof fn load_twice_same(
    s: TaskStore,
    r1: Result<(), StoreError>,
    c1: Seq<TaskView>,
    r2: Result<(), StoreError>,
    c2: Seq<TaskView>,
)
    requires
        load_post(s, r1, c1),
        load_post(s, r2, c2),
    ensures
        c1 == c2,
        r1 == r2,
{
    if s.available() {
        assert(r1->Ok_0 == r2->Ok_0);
    }
}

/// A successful load leaves the collection as long as the store.
pub proof fn loaded_in_sync(s: TaskStore, r: Result<(), StoreError>, c: Seq<TaskView>)
    requires
        load_post(s, r, c),
        r is Ok,
    ensures
        c.len() == s@.len(),
{
}

/// Giving a task the same stage twice in a row succeeds both times when the
/// first succeeded: the store is written again, the task shows the stage
/// after each call, and the second call changes nothing.
pub proof fn status_reapplied(
    c0: Seq<TaskView>,
    s0: TaskStore,
    idx: int,
    id: u64,
    status: Status,
    r1: Result<(), StoreError>,
    c1: Seq<TaskView>,
    s1: TaskStore,
    r2: Result<(), StoreError>,
    c2: Seq<TaskView>,
    s2: TaskStore,
)
    requires
        s0.wf(),
        0 <= idx < c0.len(),
        change_status_post(c0, s0, idx, id, status, r1, c1, s1),
        r1 is Ok,
        change_status_post(c1, s1, idx, id, status, r2, c2, s2),
    ensures
        r2 is Ok,
        c1[idx].status == status,
        c2[idx].status == status,
        c2 == c1,
        s2@ == s1@,
        exists|i: int| 0 <= i < s2@.len() && s2@[i].id == id && s2@[i].status == status,
{
    let i = choose|i: int|
        0 <= i < s0@.len() && s0@[i].id == id && s1@ == s0@.update(
            i,
            crate::store::with_status(s0@[i], status),
        );
    assert(s1@[i].id == id && s1@[i].status == status);
    assert(c1[idx] == crate::store::with_status(c0[idx], status));
    let j = choose|j: int|
        0 <= j < s1@.len() && s1@[j].id == id && s2@ == s1@.update(
            j,
            crate::store::with_status(s1@[j], status),
        );
    s1.lemma_ids_unique();
    assert(j == i);
    assert(crate::store::with_status(s1@[i], status) == s1@[i]);
    assert(s2@ =~= s1@);
    assert(crate::store::with_status(c1[idx], status) == c1[idx]);
    assert(c2 =~= c1);
}

/// One intent that presentation issues to the collection.
pub ghost enum Intent {
    Add { title: Seq<char>, tag: Seq<char> },
    ChangeStatus { idx: int, id: u64, status: Status },
    Remove { idx: int, id: u64 },
}

/// Collection `c` backed by store `s` becomes `c2` backed by `s2` when
/// `op` is carried out, whatever it returned.
pub open spec fn step(c: Seq<TaskView>, s: TaskStore, op: Intent, c2: Seq<TaskView>, s2: TaskStore) -> bool {
    match op {
        Intent::Add { title, tag } => exists|r: Result<bool, StoreError>|
            add_post(c, s, title, tag, r, c2, s2),
        Intent::ChangeStatus { idx, id, status } => 0 <= idx < c.len() && exists|
            r: Result<(), StoreError>,
        | change_status_post(c, s, idx, id, status, r, c2, s2),
        Intent::Remove { idx, id } => 0 <= idx < c.len() && exists|r: Result<(), StoreError>|
            remove_post(c, s, idx, id, r, c2, s2),
    }
}

/// One intent keeps the collection as long as the store.
pub proof fn step_keeps_sync(c: Seq<TaskView>, s: TaskStore, op: Intent, c2: Seq<TaskView>, s2: TaskStore)
    requires
        c.len() == s@.len(),
        step(c, s, op, c2, s2),
    ensures
        c2.len() == s2@.len(),
{
    match op {
        Intent::Add { title, tag } => {
            let r = choose|r: Result<bool, StoreError>| add_post(c, s, title, tag, r, c2, s2);
        },
        Intent::ChangeStatus { idx, id, status } => {
            let r = choose|r: Result<(), StoreError>| change_status_post(c, s, idx, id, status, r, c2, s2);
        },
        Intent::Remove { idx, id } => {
            let r = choose|r: Result<(), StoreError>| remove_post(c, s, idx, id, r, c2, s2);
        },
    }
}

/// Whatever intents are carried out, one after another, on a collection that
/// starts as long as its store (as after a successful load), the collection
/// stays as long as the store after each of them.
pub proof fn trace_keeps_sync(cs: Seq<Seq<TaskView>>, ss: Seq<TaskStore>, ops: Seq<Intent>)
    requires
        cs.len() == ops.len() + 1,
        ss.len() == ops.len() + 1,
        cs[0].len() == ss[0]@.len(),
        forall|k: int| 0 <= k < ops.len() ==> step(cs[k], ss[k], #[trigger] ops[k], cs[k + 1], ss[k + 1]),
    ensures
        forall|k: int| 0 <= k < cs.len() ==> (#[trigger] cs[k]).len() == ss[k]@.len(),
    decreases ops.len(),
{
    if ops.len() > 0 {
        let n = ops.len() - 1;
        trace_keeps_sync(cs.drop_last(), ss.drop_last(), ops.drop_last());
        assert(cs.drop_last()[n].len() == ss.drop_last()[n]@.len());
        assert(step(cs[n], ss[n], ops[n], cs[n + 1], ss[n + 1]));
        step_keeps_sync(cs[n], ss[n], ops[n], cs[n + 1], ss[n + 1]);
        assert forall|k: int| 0 <= k < cs.len() implies (#[trigger] cs[k]).len() == ss[k]@.len() by {
            if k < cs.len() - 1 {
                assert(cs.drop_last()[k] == cs[k]);
                assert(ss.drop_last()[k] == ss[k]);
            }
        }
    }
}

} // verus!
