use todo_tasks::collection::TaskCollection;
use todo_tasks::store::{StoreError, TaskStore};
use todo_tasks::task::{blank, same_text, Status, Task};

fn titles(c: &TaskCollection) -> Vec<String> {
    c.snapshot().into_iter().map(|t| t.title).collect()
}

fn store_with(titles: &[&str]) -> TaskStore {
    let mut s = TaskStore::new();
    for t in titles {
        s.insert(&Task::pending(t, "news")).unwrap();
    }
    s
}

#[test]
fn load_twice_gives_same_sequence() {
    let store = store_with(&["a", "b", "c"]);
    let mut c = TaskCollection::new();
    assert_eq!(c.load(&store), Ok(()));
    let first: Vec<(u64, String)> = c.snapshot().into_iter().map(|t| (t.id, t.title)).collect();
    assert_eq!(c.load(&store), Ok(()));
    let second: Vec<(u64, String)> = c.snapshot().into_iter().map(|t| (t.id, t.title)).collect();
    assert_eq!(first, second);
    assert_eq!(first, vec![(1, "a".to_string()), (2, "b".to_string()), (3, "c".to_string())]);
}

#[test]
fn add_then_load_round_trip() {
    let mut store = TaskStore::new();
    let mut c = TaskCollection::new();
    assert_eq!(c.add(&mut store, "Buy milk", "news"), Ok(true));
    assert_eq!(c.load(&store), Ok(()));
    let all = c.snapshot();
    assert_eq!(all.len(), 1);
    let found: Vec<&Task> = all.iter().filter(|t| t.title == "Buy milk").collect();
    assert_eq!(found.len(), 1);
    assert_eq!(found[0].tag, "news");
    assert_eq!(found[0].status, Status::Pending);
    assert_eq!(found[0].id, 1);
}

#[test]
fn added_task_keeps_number_zero_until_reload() {
    let mut store = store_with(&["first"]);
    let mut c = TaskCollection::new();
    c.load(&store).unwrap();
    assert_eq!(c.add(&mut store, "second", "guide"), Ok(true));
    assert_eq!(c.get(1).id, 0);
    assert_eq!(c.get(1).title, "second");
    assert_eq!(c.get(1).tag, "guide");
    assert_eq!(store.get_all().unwrap()[1].id, 2);
    c.load(&store).unwrap();
    assert_eq!(c.get(1).id, 2);
}

#[test]
fn blank_title_is_noop() {
    let mut store = store_with(&["x"]);
    let mut c = TaskCollection::new();
    c.load(&store).unwrap();
    assert_eq!(c.add(&mut store, "   ", "news"), Ok(false));
    assert_eq!(c.len(), 1);
    assert_eq!(store.get_all().unwrap().len(), 1);
    assert_eq!(c.add(&mut store, "", "news"), Ok(false));
    assert_eq!(c.add(&mut store, "\t\n\u{3000}", "news"), Ok(false));
    assert_eq!(c.len(), 1);
    assert_eq!(store.get_all().unwrap().len(), 1);
    // nothing was written: the next insertion still gets number 2
    assert_eq!(store.insert(&Task::pending("y", "news")), Ok(2));
}

#[test]
fn blank_agrees_with_trim() {
    for s in ["", " ", "   ", "\t\r\n", "\u{a0}\u{2003}\u{3000}", " a ", "a", "\u{200b}", "\u{85}x"] {
        assert_eq!(blank(s), s.trim().is_empty(), "{:?}", s);
    }
}

#[test]
fn status_reapplied_twice() {
    let mut store = store_with(&["a", "b"]);
    let mut c = TaskCollection::new();
    c.load(&store).unwrap();
    assert_eq!(c.change_status(&mut store, 1, 2, Status::Completed), Ok(()));
    assert_eq!(c.get(1).status, Status::Completed);
    assert_eq!(store.get_all().unwrap()[1].status, Status::Completed);
    assert_eq!(c.change_status(&mut store, 1, 2, Status::Completed), Ok(()));
    assert_eq!(c.get(1).status, Status::Completed);
    assert_eq!(store.get_all().unwrap()[1].status, Status::Completed);
    assert_eq!(c.get(0).status, Status::Pending);
}

#[test]
fn remove_middle_of_three() {
    let mut store = store_with(&["one", "two", "three"]);
    let mut c = TaskCollection::new();
    c.load(&store).unwrap();
    let id_of_second = c.get(1).id;
    assert_eq!(c.remove(&mut store, 1, id_of_second), Ok(()));
    assert_eq!(titles(&c), vec!["one".to_string(), "three".to_string()]);
    let left: Vec<String> = store.get_all().unwrap().into_iter().map(|t| t.title).collect();
    assert_eq!(left, vec!["one".to_string(), "three".to_string()]);
}

#[test]
fn status_failure_isolated() {
    let mut store = store_with(&["a"]);
    let mut c = TaskCollection::new();
    c.load(&store).unwrap();
    store.set_available(false);
    assert_eq!(c.change_status(&mut store, 0, 1, Status::Archived), Err(StoreError::StoreUnavailable));
    assert_eq!(c.get(0).status, Status::Pending);
    store.set_available(true);
    assert_eq!(store.get_all().unwrap()[0].status, Status::Pending);
}

#[test]
fn unknown_number_is_not_found() {
    let mut store = store_with(&["a"]);
    let mut c = TaskCollection::new();
    c.load(&store).unwrap();
    assert_eq!(c.change_status(&mut store, 0, 9, Status::Uploaded), Err(StoreError::NotFound));
    assert_eq!(c.get(0).status, Status::Pending);
    assert_eq!(c.remove(&mut store, 0, 9), Err(StoreError::NotFound));
    assert_eq!(c.len(), 1);
    assert_eq!(store.get_all().unwrap().len(), 1);
}

#[test]
fn failed_remove_keeps_task() {
    let mut store = store_with(&["a", "b"]);
    let mut c = TaskCollection::new();
    c.load(&store).unwrap();
    store.set_available(false);
    assert_eq!(c.remove(&mut store, 0, 1), Err(StoreError::StoreUnavailable));
    assert_eq!(titles(&c), vec!["a".to_string(), "b".to_string()]);
}

#[test]
fn failed_add_appends_nothing() {
    let mut store = TaskStore::new();
    let mut c = TaskCollection::new();
    store.set_available(false);
    assert_eq!(c.add(&mut store, "Buy milk", "news"), Err(StoreError::StoreUnavailable));
    assert_eq!(c.len(), 0);
    store.set_available(true);
    assert_eq!(store.get_all().unwrap().len(), 0);
}

#[test]
fn failed_load_leaves_collection_empty() {
    let mut store = store_with(&["a", "b"]);
    let mut c = TaskCollection::new();
    c.load(&store).unwrap();
    store.set_available(false);
    assert_eq!(store.get_all().err(), Some(StoreError::StoreUnavailable));
    assert_eq!(c.load(&store), Err(StoreError::StoreUnavailable));
    assert_eq!(c.len(), 0);
}

#[test]
fn lengths_stay_in_sync() {
    let mut store = TaskStore::new();
    let mut c = TaskCollection::new();
    c.load(&store).unwrap();
    let in_sync = |c: &TaskCollection, s: &TaskStore| c.len() == s.get_all().unwrap().len();
    assert_eq!(c.add(&mut store, "a", "gameplay"), Ok(true));
    assert!(in_sync(&c, &store));
    assert_eq!(c.add(&mut store, "b", "shorts"), Ok(true));
    assert!(in_sync(&c, &store));
    assert_eq!(c.add(&mut store, "c", "event"), Ok(true));
    assert!(in_sync(&c, &store));
    assert_eq!(c.change_status(&mut store, 2, 3, Status::OnHold), Ok(()));
    assert!(in_sync(&c, &store));
    assert_eq!(c.remove(&mut store, 0, 1), Ok(()));
    assert!(in_sync(&c, &store));
    assert_eq!(c.add(&mut store, "  ", "event"), Ok(false));
    assert!(in_sync(&c, &store));
    assert_eq!(c.remove(&mut store, 1, 3), Ok(()));
    assert!(in_sync(&c, &store));
    assert_eq!(c.len(), 1);
}

#[test]
fn store_numbers_ignore_given_number() {
    let mut store = TaskStore::new();
    let mut t = Task::pending("a", "free text tag");
    t.id = 42;
    assert_eq!(store.insert(&t), Ok(1));
    assert_eq!(store.insert(&t), Ok(2));
    let all = store.get_all().unwrap();
    assert_eq!(all[0].id, 1);
    assert_eq!(all[1].id, 2);
    assert_eq!(all[0].tag, "free text tag");
    assert_eq!(store.delete(1), Ok(()));
    assert_eq!(store.delete(1), Err(StoreError::NotFound));
    assert_eq!(store.insert(&t), Ok(3));
}

#[test]
fn commit_steps_follow_outcome() {
    let mut c = TaskCollection::new();
    let t = TaskCollection::draft("x", "news").unwrap();
    assert_eq!(t.id, 0);
    assert_eq!(t.status, Status::Pending);
    assert!(TaskCollection::draft(" ", "news").is_none());
    assert_eq!(c.commit_add(t, Err(StoreError::StoreUnavailable)), Err(StoreError::StoreUnavailable));
    assert_eq!(c.len(), 0);
    let t = TaskCollection::draft("x", "news").unwrap();
    assert_eq!(c.commit_add(t, Ok(())), Ok(()));
    assert_eq!(c.len(), 1);
    assert_eq!(c.commit_status(0, Status::Uploaded, Err(StoreError::NotFound)), Err(StoreError::NotFound));
    assert_eq!(c.get(0).status, Status::Pending);
    assert_eq!(c.commit_status(0, Status::Uploaded, Ok(())), Ok(()));
    assert_eq!(c.get(0).status, Status::Uploaded);
    assert_eq!(c.commit_remove(0, Err(StoreError::NotFound)), Err(StoreError::NotFound));
    assert_eq!(c.len(), 1);
    assert_eq!(c.commit_remove(0, Ok(())), Ok(()));
    assert_eq!(c.len(), 0);
    assert_eq!(c.commit_load(Err(StoreError::StoreUnavailable)), Err(StoreError::StoreUnavailable));
    assert_eq!(c.len(), 0);
    assert_eq!(c.commit_load(Ok(vec![Task::pending("p", "q")])), Ok(()));
    assert_eq!(titles(&c), vec!["p".to_string()]);
}

#[test]
fn labels_round_trip() {
    let all = [
        (Status::Pending, "Pending"),
        (Status::InProgress, "In Progress"),
        (Status::Uploaded, "Uploaded"),
        (Status::Completed, "Completed"),
        (Status::OnHold, "On Hold"),
        (Status::Archived, "Archived"),
    ];
    for (s, l) in all {
        assert_eq!(s.label(), l);
        assert_eq!(Status::from_label(l), Some(s));
    }
    assert_eq!(Status::from_label("completed"), None);
    assert_eq!(Status::from_label("Done"), None);
    assert_eq!(Status::from_label(""), None);
    assert_eq!(Status::initial(), Status::Pending);
}

#[test]
fn text_comparison() {
    assert!(same_text("On Hold", "On Hold"));
    assert!(!same_text("On Hold", "On Hol"));
    assert!(!same_text("abc", "abd"));
    assert!(same_text("", ""));
}
