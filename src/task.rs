use vstd::prelude::*;

verus! {

/// The stage a task has reached. The stages form a flat, fully connected set:
/// any stage may follow any other.
#[derive(Clone, Copy, Debug, PartialEq, Eq, Structural)]
pub enum Status {
    Pending,
    InProgress,
    Uploaded,
    Completed,
    OnHold,
    Archived,
}

/// The text by which a stage is shown and stored.
pub open spec fn label_of(s: Status) -> Seq<char> {
    match s {
        Status::Pending => "Pending"@,
        Status::InProgress => "In Progress"@,
        Status::Uploaded => "Uploaded"@,
        Status::Completed => "Completed"@,
        Status::OnHold => "On Hold"@,
        Status::Archived => "Archived"@,
    }
}

/// The stage whose label is exactly `t`, if there is one.
pub open spec fn status_of(t: Seq<char>) -> Option<Status> {
    if t == "Pending"@ {
        Some(Status::Pending)
    } else if t == "In Progress"@ {
        Some(Status::InProgress)
    } else if t == "Uploaded"@ {
        Some(Status::Uploaded)
    } else if t == "Completed"@ {
        Some(Status::Completed)
    } else if t == "On Hold"@ {
        Some(Status::OnHold)
    } else if t == "Archived"@ {
        Some(Status::Archived)
    } else {
        None
    }
}

/// Whether two texts hold the same characters.
pub fn same_text(a: &str, b: &str) -> (r: bool)
    ensures
        r == (a@ == b@),
{
    let n = a.unicode_len();
    if n != b.unicode_len() {
        return false;
    }
    let mut i: usize = 0;
    while i < n
        invariant
            n == a@.len(),
            n == b@.len(),
            i <= n,
            forall|k: int| 0 <= k < i ==> a@[k] == b@[k],
        decreases n - i,
    {
        if a.get_char(i) != b.get_char(i) {
            return false;
        }
        i += 1;
    }
    assert(a@ =~= b@);
    true
}

impl Status {
    /// The stage given to a task when it is created.
    pub fn initial() -> (r: Status)
        ensures
            r == Status::Pending,
    {
        Status::Pending
    }

    /// The label of this stage.
    pub fn label(&self) -> (r: &'static str)
        ensures
            r@ == label_of(*self),
    {
        match self {
            Status::Pending => "Pending",
            Status::InProgress => "In Progress",
            Status::Uploaded => "Uploaded",
            Status::Completed => "Completed",
            Status::OnHold => "On Hold",
            Status::Archived => "Archived",
        }
    }

    /// Reads a stage from its label. The set of stages is closed: any other
    /// text gives `None`.
    pub fn from_label(t: &str) -> (r: Option<Status>)
        ensures
            r == status_of(t@),
    {
        if same_text(t, "Pending") {
            Some(Status::Pending)
        } else if same_text(t, "In Progress") {
            Some(Status::InProgress)
        } else if same_text(t, "Uploaded") {
            Some(Status::Uploaded)
        } else if same_text(t, "Completed") {
            Some(Status::Completed)
        } else if same_text(t, "On Hold") {
            Some(Status::OnHold)
        } else if same_text(t, "Archived") {
            Some(Status::Archived)
        } else {
            None
        }
    }
}

/// Whether `c` has the Unicode White_Space property.
pub open spec fn is_space(c: char) -> bool {
    c == ' ' || ('\t' <= c && c <= '\r') || c == '\u{85}' || c == '\u{a0}' || c == '\u{1680}'
        || ('\u{2000}' <= c && c <= '\u{200a}') || c == '\u{2028}' || c == '\u{2029}'
        || c == '\u{202f}' || c == '\u{205f}' || c == '\u{3000}'
}

/// Whether a text is empty once white space is trimmed from both ends, that
/// is, whether it holds only white space.
pub open spec fn is_blank(t: Seq<char>) -> bool {
    forall|i: int| 0 <= i < t.len() ==> is_space(t[i])
}

/// Tests one character for white space.
pub fn space_char(c: char) -> (r: bool)
    ensures
        r == is_space(c),
{
    c == ' ' || ('\t' <= c && c <= '\r') || c == '\u{85}' || c == '\u{a0}' || c == '\u{1680}'
        || ('\u{2000}' <= c && c <= '\u{200a}') || c == '\u{2028}' || c == '\u{2029}'
        || c == '\u{202f}' || c == '\u{205f}' || c == '\u{3000}'
}

/// Whether `t` holds nothing but white space.
pub fn blank(t: &str) -> (r: bool)
    ensures
        r == is_blank(t@),
{
    let n = t.unicode_len();
    let mut i: usize = 0;
    while i < n
        invariant
            n == t@.len(),
            i <= n,
            forall|k: int| 0 <= k < i ==> is_space(t@[k]),
        decreases n - i,
    {
        if !space_char(t.get_char(i)) {
            return false;
        }
        i += 1;
    }
    true
}

/// A task as the contracts see it.
pub ghost struct TaskView {
    pub id: u64,
    pub title: Seq<char>,
    pub tag: Seq<char>,
    pub status: Status,
}

/// A to-do item. An `id` of 0 marks a task that the store has not numbered.
/// The tag is carried as given: the store does not check it.
#[derive(Clone, Debug)]
pub struct Task {
    pub id: u64,
    pub title: String,
    pub tag: String,
    pub status: Status,
}

impl View for Task {
    type V = TaskView;

    open spec fn view(&self) -> TaskView {
        TaskView { id: self.id, title: self.title@, tag: self.tag@, status: self.status }
    }
}

/// The views of a sequence of tasks, in order.
pub open spec fn views(s: Seq<Task>) -> Seq<TaskView> {
    s.map_values(|t: Task| t@)
}

impl Task {
    /// A task not yet handed to a store: number 0, stage `Pending`.
    pub fn pending(title: &str, tag: &str) -> (r: Task)
        ensures
            r@ == (TaskView { id: 0, title: title@, tag: tag@, status: Status::Pending }),
    {
        Task { id: 0, title: title.to_owned(), tag: tag.to_owned(), status: Status::initial() }
    }

    /// A task equal to this one, owned separately.
    pub fn duplicate(&self) -> (r: Task)
        ensures
            r@ == self@,
    {
        Task { id: self.id, title: self.title.clone(), tag: self.tag.clone(), status: self.status }
    }
}

} // verus!
