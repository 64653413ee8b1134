use vstd::prelude::*;

use crate::store::{deleted, holds_id, numbered, status_changed, with_status, StoreError, TaskStore};
use crate::task::{blank, is_blank, views, Status, Task, TaskView};

verus! {

/// What the collection holds after a load from `s`: every record of `s`, or
/// nothing when `s` cannot be read.
pub open spec fn load_outcome(s: TaskStore) -> Seq<TaskView> {
    if s.available() {
        s@
    } else {
        Seq::empty()
    }
}

/// The effect of a load from `s`, with result `r`, leaving `c2`.
pub open spec fn load_post(s: TaskStore, r: Result<(), StoreError>, c2: Seq<TaskView>) -> bool {
    &&& c2 == load_outcome(s)
    &&& s.available() ==> r is Ok
    &&& !s.available() ==> r == Err::<(), StoreError>(StoreError::StoreUnavailable)
}

/// The task built for an add of `title` under `tag`.
pub open spec fn draft_of(title: Seq<char>, tag: Seq<char>) -> TaskView {
    TaskView { id: 0, title, tag, status: Status::Pending }
}

/// The effect of adding `title` under `tag` to collection `c` backed by
/// store `s`, with result `r`, leaving collection `c2` and store `s2`.
///
/// A blank title is refused with `Ok(false)` and touches nothing. Otherwise
/// the store is written first; only when it takes the task is the task, as
/// built here with number 0, appended to the collection (`Ok(true)`).
pub open spec fn add_post(
    c: Seq<TaskView>,
    s: TaskStore,
    title: Seq<char>,
    tag: Seq<char>,
    r: Result<bool, StoreError>,
    c2: Seq<TaskView>,
    s2: TaskStore,
) -> bool {
    let t = draft_of(title, tag);
    if is_blank(title) {
        r == Ok::<bool, StoreError>(false) && c2 == c && s2 == s
    } else {
        &&& s2.wf()
        &&& s2.available() == s.available()
        &&& if s.available() && s.fresh_id() < u64::MAX {
            &&& r == Ok::<bool, StoreError>(true)
            &&& c2 == c.push(t)
            &&& s2@ == s@.push(numbered(t, s.fresh_id()))
            &&& s2.fresh_id() == s.fresh_id() + 1
        } else {
            &&& r == Err::<bool, StoreError>(StoreError::StoreUnavailable)
            &&& c2 == c
            &&& s2@ == s@
            &&& s2.fresh_id() == s.fresh_id()
        }
    }
}

/// The effect of giving the task at position `idx`, numbered `id` in store
/// `s`, the stage `status`. The store is written first; the collection
/// changes only when the store succeeded.
pub open spec fn change_status_post(
    c: Seq<TaskView>,
    s: TaskStore,
    idx: int,
    id: u64,
    status: Status,
    r: Result<(), StoreError>,
    c2: Seq<TaskView>,
    s2: TaskStore,
) -> bool {
    &&& s2.wf()
    &&& s2.available() == s.available()
    &&& s2.fresh_id() == s.fresh_id()
    &&& if !s.available() {
        r == Err::<(), StoreError>(StoreError::StoreUnavailable) && c2 == c && s2@ == s@
    } else if !holds_id(s@, id) {
        r == Err::<(), StoreError>(StoreError::NotFound) && c2 == c && s2@ == s@
    } else {
        &&& r is Ok
        &&& c2 == c.update(idx, with_status(c[idx], status))
        &&& status_changed(s@, id, status, s2@)
    }
}

/// The effect of removing the task at position `idx`, numbered `id` in store
/// `s`. The store is written first; the collection changes only when the
/// store succeeded.
pub open spec fn remove_post(
    c: Seq<TaskView>,
    s: TaskStore,
    idx: int,
    id: u64,
    r: Result<(), StoreError>,
    c2: Seq<TaskView>,
    s2: TaskStore,
) -> bool {
    &&& s2.wf()
    &&& s2.available() == s.available()
    &&& s2.fresh_id() == s.fresh_id()
    &&& if !s.available() {
        r == Err::<(), StoreError>(StoreError::StoreUnavailable) && c2 == c && s2@ == s@
    } else if !holds_id(s@, id) {
        r == Err::<(), StoreError>(StoreError::NotFound) && c2 == c && s2@ == s@
    } else {
        &&& r is Ok
        &&& c2 == c.remove(idx)
        &&& deleted(s@, id, s2@)
    }
}

/// The in-memory, ordered mirror of a task store that presentation reads.
///
/// Every change goes to the store first and is mirrored here only once the
/// store has taken it, so the collection never shows a change the store
/// refused.
pub struct TaskCollection {
    tasks: Vec<Task>,
}

impl View for TaskCollection {
    type V = Seq<TaskView>;

    closed spec fn view(&self) -> Seq<TaskView> {
        views(self.tasks@)
    }
}

impl TaskCollection {
    /// An empty collection.
    pub fn new() -> (r: TaskCollection)
        ensures
            r@ == Seq::<TaskView>::empty(),
    {
        let r = TaskCollection { tasks: Vec::new() };
        assert(r@ =~= Seq::<TaskView>::empty());
        r
    }

    /// The number of tasks.
    pub fn len(&self) -> (r: usize)
        ensures
            r == self@.len(),
    {
        self.tasks.len()
    }

    /// The task at position `i`.
    pub fn get(&self, i: usize) -> (r: &Task)
        requires
            i < self@.len(),
        ensures
            r@ == self@[i as int],
    {
        &self.tasks[i]
    }

    /// Every task, in order, owned by the caller.
    pub fn snapshot(&self) -> (r: Vec<Task>)
        ensures
            views(r@) == self@,
    {
        let mut out: Vec<Task> = Vec::new();
        let mut i: usize = 0;
        while i < self.tasks.len()
            invariant
                i <= self.tasks@.len(),
                out@.len() == i,
                forall|k: int| 0 <= k < i ==> #[trigger] out@[k]@ == self.tasks@[k]@,
            decreases self.tasks@.len() - i,
        {
            out.push(self.tasks[i].duplicate());
            i += 1;
        }
        assert(views(out@) =~= views(self.tasks@));
        out
    }

    /// Takes in what a full read of the store gave: on success the records
    /// replace the whole collection, on failure the collection is left empty
    /// and the failure is handed back.
    pub fn commit_load(&mut self, fetched: Result<Vec<Task>, StoreError>) -> (r: Result<(), StoreError>)
        ensures
            match fetched {
                Ok(v) => r is Ok && final(self)@ == views(v@),
                Err(e) => r == Err::<(), StoreError>(e) && final(self)@ == Seq::<TaskView>::empty(),
            },
    {
        match fetched {
            Ok(v) => {
                self.tasks = v;
                Ok(())
            },
            Err(e) => {
                self.tasks = Vec::new();
                assert(self@ =~= Seq::<TaskView>::empty());
                Err(e)
            },
        }
    }

    /// Fills the collection from a full read of `store`.
    pub fn load(&mut self, store: &TaskStore) -> (r: Result<(), StoreError>)
        ensures
            load_post(*store, r, final(self)@),
    {
        let fetched = store.get_all();
        self.commit_load(fetched)
    }

    /// The task that an add of `title` under `tag` hands to the store, or
    /// `None` when the title is blank and the add does not go ahead.
    pub fn draft(title: &str, tag: &str) -> (r: Option<Task>)
        ensures
            is_blank(title@) <==> r is None,
            r is Some ==> r->Some_0@ == draft_of(title@, tag@),
    {
        if blank(title) {
            None
        } else {
            Some(Task::pending(title, tag))
        }
    }

    /// Takes in the store's answer to the insertion of `task`: appends `task`
    /// only on success, and hands the answer back.
    pub fn commit_add(&mut self, task: Task, outcome: Result<(), StoreError>) -> (r: Result<(), StoreError>)
        ensures
            r == outcome,
            outcome is Ok ==> final(self)@ == old(self)@.push(task@),
            outcome is Err ==> final(self)@ == old(self)@,
    {
        if outcome.is_ok() {
            self.tasks.push(task);
            assert(self@ =~= old(self)@.push(task@));
        }
        outcome
    }

    /// Adds a task titled `title` under `tag`, stage `Pending`, through
    /// `store`. A blank title is a silent no-op giving `Ok(false)`.
    pub fn add(&mut self, store: &mut TaskStore, title: &str, tag: &str) -> (r: Result<bool, StoreError>)
        requires
            old(store).wf(),
        ensures
            add_post(old(self)@, *old(store), title@, tag@, r, final(self)@, *final(store)),
    {
        match TaskCollection::draft(title, tag) {
            None => Ok(false),
            Some(task) => {
                let outcome = match store.insert(&task) {
                    Ok(_) => Ok(()),
                    Err(e) => Err(e),
                };
                match self.commit_add(task, outcome) {
                    Ok(()) => Ok(true),
                    Err(e) => Err(e),
                }
            },
        }
    }

    /// Takes in the store's answer to a change of stage for the task at
    /// position `idx`: the stage is overwritten only on success.
    pub fn commit_status(&mut self, idx: usize, status: Status, outcome: Result<(), StoreError>) -> (r:
        Result<(), StoreError>)
        requires
            idx < old(self)@.len(),
        ensures
            r == outcome,
            outcome is Ok ==> final(self)@ == old(self)@.update(
                idx as int,
                with_status(old(self)@[idx as int], status),
            ),
            outcome is Err ==> final(self)@ == old(self)@,
    {
        if outcome.is_ok() {
            let mut t = self.tasks[idx].duplicate();
            t.status = status;
            self.tasks.set(idx, t);
            assert(self@ =~= old(self)@.update(idx as int, with_status(old(self)@[idx as int], status)));
        }
        outcome
    }

    /// Gives the task at position `idx`, numbered `id` in the store, the
    /// stage `status`, through `store`.
    pub fn change_status(&mut self, store: &mut TaskStore, idx: usize, id: u64, status: Status) -> (r:
        Result<(), StoreError>)
        requires
            idx < old(self)@.len(),
            old(store).wf(),
        ensures
            change_status_post(old(self)@, *old(store), idx as int, id, status, r, final(self)@, *final(store)),
    {
        let outcome = store.update_status(id, status);
        self.commit_status(idx, status, outcome)
    }

    /// Takes in the store's answer to the deletion of the task at position
    /// `idx`: the task is taken out only on success.
    pub fn commit_remove(&mut self, idx: usize, outcome: Result<(), StoreError>) -> (r: Result<(), StoreError>)
        requires
            idx < old(self)@.len(),
        ensures
            r == outcome,
            outcome is Ok ==> final(self)@ == old(self)@.remove(idx as int),
            outcome is Err ==> final(self)@ == old(self)@,
    {
        if outcome.is_ok() {
            self.tasks.remove(idx);
            assert(self@ =~= old(self)@.remove(idx as int));
        }
        outcome
    }

    /// Removes the task at position `idx`, numbered `id` in the store,
    /// through `store`.
    pub fn remove(&mut self, store: &mut TaskStore, idx: usize, id: u64) -> (r: Result<(), StoreError>)
        requires
            idx < old(self)@.len(),
            old(store).wf(),
        ensures
            remove_post(old(self)@, *old(store), idx as int, id, r, final(self)@, *final(store)),
    {
        let outcome = store.delete(id);
        self.commit_remove(idx, outcome)
    }
}

} // verus!
