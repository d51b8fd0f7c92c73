//! The board's data: project, columns, tasks, comments, ideas and the activity
//! log, with the lookups that the lifecycle operations use.
use vstd::prelude::*;
use vstd::string::StrSliceExecFns;
use crate::text::{owned, str_eq};

verus! {

/// The project a board belongs to; one per working tree.
pub struct Project {
    pub id: u64,
    pub name: String,
    pub repo_path: String,
}

/// A stage of the pipeline.
pub struct Column {
    pub id: u64,
    pub name: String,
    pub order: i32,
}

/// A unit of work. Times are seconds since the Unix epoch.
pub struct Task {
    pub id: u64,
    pub title: String,
    pub description: Option<String>,
    pub column_id: u64,
    pub assignee: Option<String>,
    pub created_at: i64,
    pub updated_at: i64,
    pub branch_name: Option<String>,
    pub pr_url: Option<String>,
}

/// A remark on a task.
pub struct Comment {
    pub id: u64,
    pub task_id: u64,
    pub author: String,
    pub text: String,
    pub created_at: i64,
}

/// A thought that may later become a task.
pub struct Idea {
    pub id: u64,
    pub content: String,
    pub created_at: i64,
}

/// The kind of a transition recorded in the activity log.
#[derive(Debug, Clone, Copy, PartialEq, Eq, Structural)]
pub enum Event {
    ProjectInitialized,
    TaskCreated,
    TaskStarted,
    TaskCompleted,
    TaskSubmitted,
    TaskMoved,
    IdeaCreated,
    IdeaPromoted,
    CommentAdded,
}

/// The tag under which each kind of event is stored.
pub open spec fn tag_of(e: Event) -> Seq<char> {
    match e {
        Event::ProjectInitialized => "project_initialized"@,
        Event::TaskCreated => "task_created"@,
        Event::TaskStarted => "task_started"@,
        Event::TaskCompleted => "task_completed"@,
        Event::TaskSubmitted => "task_submitted"@,
        Event::TaskMoved => "task_moved"@,
        Event::IdeaCreated => "idea_created"@,
        Event::IdeaPromoted => "idea_promoted"@,
        Event::CommentAdded => "comment_added"@,
    }
}

impl Event {
    /// The tag under which this kind of event is stored.
    pub fn tag(&self) -> (r: &'static str)
        ensures
            r@ == tag_of(*self),
    {
        match self {
            Event::ProjectInitialized => "project_initialized",
            Event::TaskCreated => "task_created",
            Event::TaskStarted => "task_started",
            Event::TaskCompleted => "task_completed",
            Event::TaskSubmitted => "task_submitted",
            Event::TaskMoved => "task_moved",
            Event::IdeaCreated => "idea_created",
            Event::IdeaPromoted => "idea_promoted",
            Event::CommentAdded => "comment_added",
        }
    }

    /// The kind of event stored under a tag, if the tag is known.
    pub fn from_tag(s: &str) -> (r: Option<Event>)
        ensures
            match r {
                Some(e) => tag_of(e) == s@,
                None => forall|e: Event| tag_of(e) != s@,
            },
    {
        if str_eq(s, "project_initialized") {
            Some(Event::ProjectInitialized)
        } else if str_eq(s, "task_created") {
            Some(Event::TaskCreated)
        } else if str_eq(s, "task_started") {
            Some(Event::TaskStarted)
        } else if str_eq(s, "task_completed") {
            Some(Event::TaskCompleted)
        } else if str_eq(s, "task_submitted") {
            Some(Event::TaskSubmitted)
        } else if str_eq(s, "task_moved") {
            Some(Event::TaskMoved)
        } else if str_eq(s, "idea_created") {
            Some(Event::IdeaCreated)
        } else if str_eq(s, "idea_promoted") {
            Some(Event::IdeaPromoted)
        } else if str_eq(s, "comment_added") {
            Some(Event::CommentAdded)
        } else {
            None
        }
    }
}

/// One entry of the audit trail.
pub struct ActivityLog {
    pub id: u64,
    pub event: Event,
    pub metadata: Option<String>,
    pub created_at: i64,
}

/// The whole state of a board.
///
/// Tasks, comments and log entries are never removed, so each one's id is its
/// position plus one. Ideas can be removed; their ids increase along the list
/// and stay below `next_idea_id`.
pub struct Board {
    pub project: Project,
    pub columns: Vec<Column>,
    pub tasks: Vec<Task>,
    pub comments: Vec<Comment>,
    pub ideas: Vec<Idea>,
    pub activity: Vec<ActivityLog>,
    pub next_idea_id: u64,
}

/// The id of the first column named `name`.
pub open spec fn named_column_id(cols: Seq<Column>, name: Seq<char>) -> Option<u64>
    decreases cols.len(),
{
    if cols.len() == 0 {
        None
    } else if cols[0].name@ == name {
        Some(cols[0].id)
    } else {
        named_column_id(cols.skip(1), name)
    }
}

/// The name of the first column with id `id`.
pub open spec fn column_name_of(cols: Seq<Column>, id: u64) -> Option<Seq<char>>
    decreases cols.len(),
{
    if cols.len() == 0 {
        None
    } else if cols[0].id == id {
        Some(cols[0].name@)
    } else {
        column_name_of(cols.skip(1), id)
    }
}

/// The position of the first column with id `id`, or the number of columns
/// when there is none.
pub open spec fn column_rank(cols: Seq<Column>, id: u64) -> int
    decreases cols.len(),
{
    if cols.len() == 0 {
        0
    } else if cols[0].id == id {
        0
    } else {
        1 + column_rank(cols.skip(1), id)
    }
}

/// The ids of the tasks in column `id`, newest first.
pub open spec fn ids_in_column(tasks: Seq<Task>, id: u64) -> Seq<u64>
    decreases tasks.len(),
{
    if tasks.len() == 0 {
        Seq::empty()
    } else {
        ids_in_column(tasks.skip(1), id) + if tasks[0].column_id == id { seq![tasks[0].id] } else { Seq::empty() }
    }
}

/// Whether `a` is `b` with entries added at its end.
pub open spec fn log_extends(a: Seq<ActivityLog>, b: Seq<ActivityLog>) -> bool {
    a.len() <= b.len() && b.subrange(0, a.len() as int) == a
}

/// Whether a table of `len` rows can take one more row with a fresh id.
pub open spec fn has_room(len: nat) -> bool {
    len + 1 < u64::MAX
}

pub(crate) fn room_for(len: usize) -> (r: bool)
    ensures
        r == has_room(len as nat),
{
    (len as u64) < u64::MAX - 1
}

impl Board {
    /// The board's invariant.
    pub open spec fn wf(&self) -> bool {
        &&& forall|i: int| 0 <= i < self.tasks@.len() ==> (#[trigger] self.tasks@[i]).id == i + 1
        &&& forall|i: int| 0 <= i < self.comments@.len() ==> (#[trigger] self.comments@[i]).id == i + 1
        &&& forall|i: int| 0 <= i < self.activity@.len() ==> (#[trigger] self.activity@[i]).id == i + 1
        &&& forall|i: int, j: int|
            0 <= i < j < self.ideas@.len() ==> (#[trigger] self.ideas@[i]).id < (#[trigger] self.ideas@[j]).id
        &&& forall|i: int| 0 <= i < self.ideas@.len() ==> (#[trigger] self.ideas@[i]).id < self.next_idea_id
    }

    /// Whether a task with this id exists.
    pub open spec fn has_task(&self, id: u64) -> bool {
        1 <= id <= self.tasks@.len()
    }

    /// The task with this id.
    pub open spec fn task(&self, id: u64) -> Task {
        self.tasks@[id - 1]
    }

    /// Whether an idea with this id exists.
    pub open spec fn has_idea(&self, id: u64) -> bool {
        exists|k: int| 0 <= k < self.ideas@.len() && (#[trigger] self.ideas@[k]).id == id
    }

    /// Checks the board's invariant, for a board assembled from stored rows.
    pub fn is_well_formed(&self) -> (r: bool)
        ensures
            r == self.wf(),
    {
        let mut i: usize = 0;
        while i < self.tasks.len()
            invariant
                i <= self.tasks@.len(),
                forall|j: int| 0 <= j < i ==> (#[trigger] self.tasks@[j]).id == j + 1,
            decreases self.tasks@.len() - i,
        {
            if self.tasks[i].id == 0 || self.tasks[i].id - 1 != i as u64 {
                return false;
            }
            i = i + 1;
        }
        let mut i: usize = 0;
        while i < self.comments.len()
            invariant
                i <= self.comments@.len(),
                forall|j: int| 0 <= j < i ==> (#[trigger] self.comments@[j]).id == j + 1,
            decreases self.comments@.len() - i,
        {
            if self.comments[i].id == 0 || self.comments[i].id - 1 != i as u64 {
                return false;
            }
            i = i + 1;
        }
        let mut i: usize = 0;
        while i < self.activity.len()
            invariant
                i <= self.activity@.len(),
                forall|j: int| 0 <= j < i ==> (#[trigger] self.activity@[j]).id == j + 1,
            decreases self.activity@.len() - i,
        {
            if self.activity[i].id == 0 || self.activity[i].id - 1 != i as u64 {
                return false;
            }
            i = i + 1;
        }
        let mut i: usize = 0;
        while i < self.ideas.len()
            invariant
                i <= self.ideas@.len(),
                forall|j: int| 0 <= j < i ==> (#[trigger] self.ideas@[j]).id < self.next_idea_id,
                forall|j: int, k: int| 0 <= j < k < i ==> (#[trigger] self.ideas@[j]).id < (#[trigger] self.ideas@[k]).id,
            decreases self.ideas@.len() - i,
        {
            if self.ideas[i].id >= self.next_idea_id {
                return false;
            }
            if i > 0 && self.ideas[i - 1].id >= self.ideas[i].id {
                return false;
            }
            proof {
                assert forall|j: int, k: int| 0 <= j < k < i + 1 implies
                    (#[trigger] self.ideas@[j]).id < (#[trigger] self.ideas@[k]).id by {
                    if k == i && j < i - 1 {
                        assert(self.ideas@[j].id < self.ideas@[i - 1].id);
                    }
                }
            }
            i = i + 1;
        }
        true
    }

    /// The position of the task with id `id`.
    pub fn task_index(&self, id: u64) -> (r: Option<usize>)
        ensures
            r is Some <==> self.has_task(id),
            r matches Some(k) ==> k == id - 1,
    {
        if id == 0 || id > self.tasks.len() as u64 {
            None
        } else {
            Some((id - 1) as usize)
        }
    }

    /// The position of the first column named `name`.
    pub fn column_index(&self, name: &str) -> (r: Option<usize>)
        ensures
            match r {
                Some(k) => k < self.columns@.len() && self.columns@[k as int].name@ == name@
                    && named_column_id(self.columns@, name@) == Some(self.columns@[k as int].id),
                None => named_column_id(self.columns@, name@) is None,
            },
    {
        let mut i: usize = 0;
        assert(self.columns@.skip(0) == self.columns@);
        while i < self.columns.len()
            invariant
                i <= self.columns@.len(),
                named_column_id(self.columns@, name@) == named_column_id(self.columns@.skip(i as int), name@),
            decreases self.columns@.len() - i,
        {
            let ghost rest = self.columns@.skip(i as int);
            assert(rest[0] == self.columns@[i as int]);
            if str_eq(self.columns[i].name.as_str(), name) {
                return Some(i);
            }
            assert(rest.skip(1) == self.columns@.skip(i + 1));
            i = i + 1;
        }
        None
    }

    /// The position of the first column with id `id`.
    pub fn column_position(&self, id: u64) -> (r: Option<usize>)
        ensures
            match r {
                Some(k) => k < self.columns@.len() && self.columns@[k as int].id == id
                    && column_name_of(self.columns@, id) == Some(self.columns@[k as int].name@)
                    && column_rank(self.columns@, id) == k,
                None => column_name_of(self.columns@, id) is None
                    && column_rank(self.columns@, id) == self.columns@.len(),
            },
    {
        let mut i: usize = 0;
        assert(self.columns@.skip(0) == self.columns@);
        while i < self.columns.len()
            invariant
                i <= self.columns@.len(),
                column_name_of(self.columns@, id) == column_name_of(self.columns@.skip(i as int), id),
                column_rank(self.columns@, id) == i + column_rank(self.columns@.skip(i as int), id),
            decreases self.columns@.len() - i,
        {
            let ghost rest = self.columns@.skip(i as int);
            assert(rest[0] == self.columns@[i as int]);
            if self.columns[i].id == id {
                return Some(i);
            }
            assert(rest.skip(1) == self.columns@.skip(i + 1));
            i = i + 1;
        }
        None
    }

    /// The ids of the tasks in column `column_id`, newest first.
    pub fn tasks_in_column(&self, column_id: u64) -> (r: Vec<u64>)
        ensures
            r@ == ids_in_column(self.tasks@, column_id),
    {
        let n = self.tasks.len();
        let mut out: Vec<u64> = Vec::new();
        let mut i: usize = n;
        while i > 0
            invariant
                n == self.tasks@.len(),
                i <= n,
                out@ == ids_in_column(self.tasks@.subrange(i as int, n as int), column_id),
            decreases i,
        {
            let j = i - 1;
            let ghost sub = self.tasks@.subrange(j as int, n as int);
            assert(sub.skip(1) == self.tasks@.subrange(i as int, n as int));
            assert(sub[0] == self.tasks@[j as int]);
            if self.tasks[j].column_id == column_id {
                out.push(self.tasks[j].id);
            } else {
                assert(out@ + Seq::<u64>::empty() == out@);
            }
            i = j;
        }
        assert(self.tasks@.subrange(0, n as int) == self.tasks@);
        out
    }

    /// The column selected after moving right from `selected`, among `count`
    /// columns: one further, but never past the last.
    pub fn next_column(selected: usize, count: usize) -> (r: usize)
        ensures
            selected + 1 < count ==> r == selected + 1,
            selected + 1 >= count ==> r == selected,
    {
        if selected < usize::MAX && selected + 1 < count { selected + 1 } else { selected }
    }

    /// The column selected after moving left from `selected`: one back, but
    /// never before the first.
    pub fn previous_column(selected: usize) -> (r: usize)
        ensures
            selected > 0 ==> r == selected - 1,
            selected == 0 ==> r == 0,
    {
        if selected > 0 { selected - 1 } else { 0 }
    }

    /// The position of the idea with id `id`.
    pub fn idea_index(&self, id: u64) -> (r: Option<usize>)
        requires
            self.wf(),
        ensures
            match r {
                Some(k) => k < self.ideas@.len() && self.ideas@[k as int].id == id,
                None => !self.has_idea(id),
            },
    {
        let mut i: usize = 0;
        while i < self.ideas.len()
            invariant
                i <= self.ideas@.len(),
                forall|j: int| 0 <= j < i ==> (#[trigger] self.ideas@[j]).id != id,
            decreases self.ideas@.len() - i,
        {
            if self.ideas[i].id == id {
                return Some(i);
            }
            i = i + 1;
        }
        None
    }

    /// Appends an entry to the activity log.
    pub(crate) fn log(&mut self, event: Event, metadata: String, now: i64)
        requires
            old(self).wf(),
            has_room(old(self).activity@.len()),
        ensures
            final(self).wf(),
            final(self).activity@.len() == old(self).activity@.len() + 1,
            final(self).activity@.drop_last() == old(self).activity@,
            final(self).activity@.last().event == event,
            final(self).activity@.last().metadata == Some(metadata),
            final(self).activity@.last().created_at == now,
            final(self).project == old(self).project,
            final(self).columns == old(self).columns,
            final(self).tasks == old(self).tasks,
            final(self).comments == old(self).comments,
            final(self).ideas == old(self).ideas,
            final(self).next_idea_id == old(self).next_idea_id,
    {
        let id = self.activity.len() as u64 + 1;
        self.activity.push(ActivityLog { id, event, metadata: Some(metadata), created_at: now });
        assert(self.activity@.drop_last() == old(self).activity@);
    }
}

} // verus!
