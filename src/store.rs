use vstd::prelude::*;

use crate::task::{views, Status, Task, TaskView};

verus! {

/// Why a store operation failed.
#[derive(Clone, Copy, Debug, PartialEq, Eq, Structural)]
pub enum StoreError {
    /// The medium could not be read or written.
    StoreUnavailable,
    /// No record carries the given number.
    NotFound,
}

/// Whether some record of `s` carries the number `id`.
pub open spec fn holds_id(s: Seq<TaskView>, id: u64) -> bool {
    exists|i: int| 0 <= i < s.len() && s[i].id == id
}

/// `t` with its stage replaced.
pub open spec fn with_status(t: TaskView, status: Status) -> TaskView {
    TaskView { status, ..t }
}

/// The record that the store keeps for `t` under the number `id`.
pub open spec fn numbered(t: TaskView, id: u64) -> TaskView {
    TaskView { id, ..t }
}

/// The records after the one numbered `id` is given `status`.
pub open spec fn status_changed(s: Seq<TaskView>, id: u64, status: Status, r: Seq<TaskView>) -> bool {
    exists|i: int| 0 <= i < s.len() && s[i].id == id && r == s.update(i, with_status(s[i], status))
}

/// The records after the one numbered `id` is taken out.
pub open spec fn deleted(s: Seq<TaskView>, id: u64, r: Seq<TaskView>) -> bool {
    exists|i: int| 0 <= i < s.len() && s[i].id == id && r == s.remove(i)
}

/// The durable record of tasks, in the order they were inserted.
///
/// Records are numbered from 1 upwards in the order of insertion, so numbers
/// are unique. The medium can be marked unavailable, after which every
/// operation fails with `StoreUnavailable` until it is marked available again.
pub struct TaskStore {
    records: Vec<Task>,
    next_id: u64,
    online: bool,
}

impl View for TaskStore {
    type V = Seq<TaskView>;

    closed spec fn view(&self) -> Seq<TaskView> {
        views(self.records@)
    }
}

impl TaskStore {
    /// Whether the medium can be read and written.
    pub closed spec fn available(&self) -> bool {
        self.online
    }

    /// The number the next inserted record receives.
    pub closed spec fn fresh_id(&self) -> u64 {
        self.next_id
    }

    /// Records are numbered in increasing order, each below `fresh_id` and
    /// none 0.
    pub closed spec fn wf(&self) -> bool {
        &&& 1 <= self.next_id
        &&& forall|i: int| 0 <= i < self.records@.len() ==> 1 <= #[trigger] self.records@[i].id < self.next_id
        &&& forall|i: int, j: int|
            0 <= i < j < self.records@.len() ==> self.records@[i].id < self.records@[j].id
    }

    /// No two records share a number.
    pub proof fn lemma_ids_unique(&self)
        requires
            self.wf(),
        ensures
            forall|i: int, j: int|
                0 <= i < self@.len() && 0 <= j < self@.len() && self@[i].id == self@[j].id ==> i == j,
    {
        assert forall|i: int, j: int|
            0 <= i < self@.len() && 0 <= j < self@.len() && self@[i].id == self@[j].id implies i == j by {
            if i < j {
                assert(self.records@[i].id < self.records@[j].id);
            } else if j < i {
                assert(self.records@[j].id < self.records@[i].id);
            }
        }
    }

    /// An empty, available store.
    pub fn new() -> (r: TaskStore)
        ensures
            r.wf(),
            r@ == Seq::<TaskView>::empty(),
            r.available(),
            r.fresh_id() == 1,
    {
        let r = TaskStore { records: Vec::new(), next_id: 1, online: true };
        assert(r@ =~= Seq::<TaskView>::empty());
        r
    }

    /// Marks the medium available or not; the records stay as they are.
    pub fn set_available(&mut self, on: bool)
        ensures
            final(self)@ == old(self)@,
            final(self).available() == on,
            final(self).fresh_id() == old(self).fresh_id(),
            old(self).wf() ==> final(self).wf(),
    {
        self.online = on;
    }

    /// Every record, in the order of insertion.
    pub fn get_all(&self) -> (r: Result<Vec<Task>, StoreError>)
        ensures
            self.available() ==> r is Ok && views(r->Ok_0@) == self@,
            !self.available() ==> r == Err::<Vec<Task>, StoreError>(StoreError::StoreUnavailable),
    {
        if !self.online {
            return Err(StoreError::StoreUnavailable);
        }
        let mut out: Vec<Task> = Vec::new();
        let mut i: usize = 0;
        while i < self.records.len()
            invariant
                i <= self.records@.len(),
                out@.len() == i,
                forall|k: int| 0 <= k < i ==> #[trigger] out@[k]@ == self.records@[k]@,
            decreases self.records@.len() - i,
        {
            out.push(self.records[i].duplicate());
            i += 1;
        }
        assert(views(out@) =~= views(self.records@));
        Ok(out)
    }

    /// Stores `task` as a new last record under a fresh number, whatever
    /// number `task` carries, and returns that number. Fails, changing
    /// nothing, when the medium is unavailable or the numbers are spent.
    pub fn insert(&mut self, task: &Task) -> (r: Result<u64, StoreError>)
        requires
            old(self).wf(),
        ensures
            final(self).wf(),
            final(self).available() == old(self).available(),
            (old(self).available() && old(self).fresh_id() < u64::MAX) <==> r is Ok,
            r is Ok ==> r->Ok_0 == old(self).fresh_id()
                && final(self)@ == old(self)@.push(numbered(task@, r->Ok_0))
                && final(self).fresh_id() == old(self).fresh_id() + 1,
            r is Err ==> r == Err::<u64, StoreError>(StoreError::StoreUnavailable)
                && final(self)@ == old(self)@
                && final(self).fresh_id() == old(self).fresh_id(),
    {
        if !self.online || self.next_id == u64::MAX {
            return Err(StoreError::StoreUnavailable);
        }
        let id = self.next_id;
        let mut rec = task.duplicate();
        rec.id = id;
        self.records.push(rec);
        self.next_id = id + 1;
        assert(self@ =~= old(self)@.push(numbered(task@, id)));
        Ok(id)
    }

    /// The position of the record numbered `id`, if there is one.
    fn find(&self, id: u64) -> (r: Option<usize>)
        ensures
            r is Some ==> r->Some_0 < self@.len() && self@[r->Some_0 as int].id == id,
            r is None ==> !holds_id(self@, id),
    {
        let mut i: usize = 0;
        while i < self.records.len()
            invariant
                i <= self.records@.len(),
                forall|k: int| 0 <= k < i ==> self.records@[k].id != id,
            decreases self.records@.len() - i,
        {
            if self.records[i].id == id {
                return Some(i);
            }
            i += 1;
        }
        assert(!holds_id(self@, id)) by {
            if holds_id(self@, id) {
                let k = choose|k: int| 0 <= k < self@.len() && self@[k].id == id;
                assert(self.records@[k].id == id);
            }
        }
        None
    }

    /// Gives the record numbered `id` the stage `status`.
    pub fn update_status(&mut self, id: u64, status: Status) -> (r: Result<(), StoreError>)
        requires
            old(self).wf(),
        ensures
            final(self).wf(),
            final(self).available() == old(self).available(),
            final(self).fresh_id() == old(self).fresh_id(),
            !old(self).available() ==> r == Err::<(), StoreError>(StoreError::StoreUnavailable),
            old(self).available() && !holds_id(old(self)@, id) ==> r == Err::<(), StoreError>(
                StoreError::NotFound,
            ),
            old(self).available() && holds_id(old(self)@, id) ==> r is Ok,
            r is Ok ==> status_changed(old(self)@, id, status, final(self)@),
            r is Err ==> final(self)@ == old(self)@,
    {
        if !self.online {
            return Err(StoreError::StoreUnavailable);
        }
        match self.find(id) {
            None => Err(StoreError::NotFound),
            Some(i) => {
                let mut rec = self.records[i].duplicate();
                rec.status = status;
                self.records.set(i, rec);
                assert(self@ =~= old(self)@.update(i as int, with_status(old(self)@[i as int], status)));
                Ok(())
            },
        }
    }

    /// Takes out the record numbered `id`.
    pub fn delete(&mut self, id: u64) -> (r: Result<(), StoreError>)
        requires
            old(self).wf(),
        ensures
            final(self).wf(),
            final(self).available() == old(self).available(),
            final(self).fresh_id() == old(self).fresh_id(),
            !old(self).available() ==> r == Err::<(), StoreError>(StoreError::StoreUnavailable),
            old(self).available() && !holds_id(old(self)@, id) ==> r == Err::<(), StoreError>(
                StoreError::NotFound,
            ),
            old(self).available() && holds_id(old(self)@, id) ==> r is Ok,
            r is Ok ==> deleted(old(self)@, id, final(self)@),
            r is Err ==> final(self)@ == old(self)@,
    {
        if !self.online {
            return Err(StoreError::StoreUnavailable);
        }
        match self.find(id) {
            None => Err(StoreError::NotFound),
            Some(i) => {
                self.records.remove(i);
                assert(self@ =~= old(self)@.remove(i as int));
                Ok(())
            },
        }
    }
}

} // verus!
