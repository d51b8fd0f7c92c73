//! The task lifecycle engine: the operations that move tasks through the board.
//!
//! Operations with a git side effect come in two steps. The first, on a shared
//! board, checks the preconditions and says what git must do; the caller then
//! does it and hands its outcome to the second, which changes the board only
//! when the side effect succeeded. Every successful operation appends exactly
//! one entry to the activity log.
use vstd::prelude::*;
use vstd::string::StrSliceExecFns;
use crate::board::{
    column_name_of, has_room, log_extends, named_column_id, ActivityLog, Board, Column, Comment,
    Event, Idea, Project, Task,
};
use crate::branch::{branch_name, branch_name_of};
use crate::github::{review_link, review_link_of};
use crate::text::{decimal, owned, push_decimal, push_str};

verus! {

/// Why a lifecycle operation did not happen.
#[derive(Debug, PartialEq, Eq)]
pub enum BoardError {
    /// No task has this id.
    TaskNotFound(u64),
    /// No idea has this id.
    IdeaNotFound(u64),
    /// No column has this name (or, for the current column, this id).
    ColumnNotFound(String),
    /// The task has no working branch yet.
    NoBranch(u64),
    /// A git operation failed; its message.
    GitFailure(String),
    /// A table has no id left for a new row.
    StoreFull,
}

/// Whether `r` is the missing-column error for `name`.
pub open spec fn missing_column<T>(r: Result<T, BoardError>, name: Seq<char>) -> bool {
    r matches Err(BoardError::ColumnNotFound(n)) && n@ == name
}

/// `after` is `before` with one entry appended for `event`, carrying `metadata`.
pub open spec fn logged(before: Seq<ActivityLog>, after: Seq<ActivityLog>, event: Event, metadata: Seq<char>, now: i64) -> bool {
    &&& after.len() == before.len() + 1
    &&& after.drop_last() == before
    &&& after.last().id == after.len()
    &&& after.last().event == event
    &&& after.last().metadata is Some
    &&& after.last().metadata->0@ == metadata
    &&& after.last().created_at == now
}

/// Project, columns, comments and ideas are the same on both boards.
pub open spec fn same_but_tasks(a: Board, b: Board) -> bool {
    &&& b.project == a.project
    &&& b.columns == a.columns
    &&& b.comments == a.comments
    &&& b.ideas == a.ideas
    &&& b.next_idea_id == a.next_idea_id
}

/// `b` is `a` with only its column and update time changed.
pub open spec fn moved_task(a: Task, b: Task, column_id: u64, now: i64) -> bool {
    &&& b.id == a.id
    &&& b.title == a.title
    &&& b.description == a.description
    &&& b.assignee == a.assignee
    &&& b.created_at == a.created_at
    &&& b.branch_name == a.branch_name
    &&& b.pr_url == a.pr_url
    &&& b.column_id == column_id
    &&& b.updated_at == now
}

/// Whether a task has a working branch to submit.
pub open spec fn has_branch(t: Task) -> bool {
    t.branch_name is Some && t.branch_name->0@.len() > 0
}

/// `b` is `a` moved to `column_id` at `now`, with its branch and review link as
/// given.
pub open spec fn advanced_task(a: Task, b: Task, column_id: u64, now: i64, branch: Option<String>, pr: Option<String>) -> bool {
    &&& b.id == a.id
    &&& b.title == a.title
    &&& b.description == a.description
    &&& b.assignee == a.assignee
    &&& b.created_at == a.created_at
    &&& b.branch_name == branch
    &&& b.pr_url == pr
    &&& b.column_id == column_id
    &&& b.updated_at == now
}

/// The commit message used when a task is completed: the one given, or
/// `Closes #{id}: {title}`.
pub open spec fn commit_message_of(id: u64, title: Seq<char>, message: Option<Seq<char>>) -> Seq<char> {
    match message {
        Some(m) => m,
        None => "Closes #"@ + decimal(id as nat) + ": "@ + title,
    }
}

/// What git must do to complete a task.
pub struct DonePlan {
    /// The message for a commit, used if changes are staged.
    pub commit_message: String,
    /// The branch to push, if the task has one.
    pub push_branch: Option<String>,
}

/// The label of a task in log text: `Task #{id}`.
pub open spec fn task_label(id: u64) -> Seq<char> {
    "Task #"@ + decimal(id as nat)
}

/// The label of an idea in log text: `Idea #{id}`.
pub open spec fn idea_label(id: u64) -> Seq<char> {
    "Idea #"@ + decimal(id as nat)
}

fn label(prefix: &str, id: u64) -> (r: String)
    ensures
        r@ == prefix@ + decimal(id as nat),
{
    let mut s = String::new();
    push_str(&mut s, prefix);
    push_decimal(&mut s, id);
    s
}

impl Board {
    /// A new board for a project: the five columns Backlog, To Do, Doing,
    /// Review and Done, in that order, no tasks, comments or ideas, and one log
    /// entry recording the initialisation.
    pub fn init(name: String, repo_path: String, now: i64) -> (r: Board)
        ensures
            r.wf(),
            r.project.name == name,
            r.project.repo_path == repo_path,
            r.columns@.len() == 5,
            r.columns@[0].name@ == "Backlog"@,
            r.columns@[1].name@ == "To Do"@,
            r.columns@[2].name@ == "Doing"@,
            r.columns@[3].name@ == "Review"@,
            r.columns@[4].name@ == "Done"@,
            forall|i: int| 0 <= i < 5 ==> (#[trigger] r.columns@[i]).id == i + 1 && r.columns@[i].order == i,
            r.tasks@.len() == 0,
            r.comments@.len() == 0,
            r.ideas@.len() == 0,
            logged(Seq::empty(), r.activity@, Event::ProjectInitialized, "Project: "@ + name@, now),
    {
        let mut columns: Vec<Column> = Vec::new();
        columns.push(Column { id: 1, name: owned("Backlog"), order: 0 });
        columns.push(Column { id: 2, name: owned("To Do"), order: 1 });
        columns.push(Column { id: 3, name: owned("Doing"), order: 2 });
        columns.push(Column { id: 4, name: owned("Review"), order: 3 });
        columns.push(Column { id: 5, name: owned("Done"), order: 4 });
        let mut metadata = String::new();
        push_str(&mut metadata, "Project: ");
        push_str(&mut metadata, name.as_str());
        let project = Project { id: 1, name, repo_path };
        let mut board = Board {
            project,
            columns,
            tasks: Vec::new(),
            comments: Vec::new(),
            ideas: Vec::new(),
            activity: Vec::new(),
            next_idea_id: 1,
        };
        board.log(Event::ProjectInitialized, metadata, now);
        board
    }

    /// Adds a task to the Backlog column and returns its id.
    pub fn add_task(&mut self, title: String, description: Option<String>, now: i64) -> (r: Result<u64, BoardError>)
        requires
            old(self).wf(),
        ensures
            final(self).wf(),
            r is Ok <==> named_column_id(old(self).columns@, "Backlog"@) is Some
                && has_room(old(self).tasks@.len()) && has_room(old(self).activity@.len()),
            named_column_id(old(self).columns@, "Backlog"@) is None ==> missing_column(r, "Backlog"@),
            r is Err ==> *final(self) == *old(self),
            r matches Ok(id) ==> {
                &&& id == old(self).tasks@.len() + 1
                &&& final(self).tasks@.len() == id
                &&& final(self).tasks@.drop_last() == old(self).tasks@
                &&& final(self).task(id).id == id
                &&& final(self).task(id).title == title
                &&& final(self).task(id).description == description
                &&& final(self).task(id).column_id == named_column_id(old(self).columns@, "Backlog"@)->0
                &&& final(self).task(id).assignee is None
                &&& final(self).task(id).created_at == now
                &&& final(self).task(id).updated_at == now
                &&& final(self).task(id).branch_name is None
                &&& final(self).task(id).pr_url is None
                &&& same_but_tasks(*old(self), *final(self))
                &&& logged(old(self).activity@, final(self).activity@, Event::TaskCreated,
                    task_label(id) + ": "@ + title@, now)
            },
    {
        let backlog = match self.column_index("Backlog") {
            Some(k) => self.columns[k].id,
            None => return Err(BoardError::ColumnNotFound(owned("Backlog"))),
        };
        if !crate::board::room_for(self.tasks.len()) || !crate::board::room_for(self.activity.len()) {
            return Err(BoardError::StoreFull);
        }
        let id = self.tasks.len() as u64 + 1;
        let mut metadata = label("Task #", id);
        push_str(&mut metadata, ": ");
        push_str(&mut metadata, title.as_str());
        let task = Task {
            id,
            title,
            description,
            column_id: backlog,
            assignee: None,
            created_at: now,
            updated_at: now,
            branch_name: None,
            pr_url: None,
        };
        self.tasks.push(task);
        assert(self.tasks@.drop_last() == old(self).tasks@);
        self.log(Event::TaskCreated, metadata, now);
        Ok(id)
    }

    /// Moves a task to the column named `column_name`, with no other effect.
    pub fn move_task(&mut self, task_id: u64, column_name: &str, now: i64) -> (r: Result<(), BoardError>)
        requires
            old(self).wf(),
        ensures
            final(self).wf(),
            r is Ok <==> old(self).has_task(task_id)
                && named_column_id(old(self).columns@, column_name@) is Some
                && column_name_of(old(self).columns@, old(self).task(task_id).column_id) is Some
                && has_room(old(self).activity@.len()),
            !old(self).has_task(task_id) ==> r == Err::<(), BoardError>(BoardError::TaskNotFound(task_id)),
            old(self).has_task(task_id) && named_column_id(old(self).columns@, column_name@) is None
                ==> missing_column(r, column_name@),
            r is Err ==> *final(self) == *old(self),
            r is Ok ==> {
                &&& final(self).tasks@ == old(self).tasks@.update(task_id - 1, final(self).task(task_id))
                &&& moved_task(old(self).task(task_id), final(self).task(task_id),
                    named_column_id(old(self).columns@, column_name@)->0, now)
                &&& same_but_tasks(*old(self), *final(self))
                &&& logged(old(self).activity@, final(self).activity@, Event::TaskMoved,
                    task_label(task_id) + ": "@
                        + column_name_of(old(self).columns@, old(self).task(task_id).column_id)->0
                        + " → "@ + column_name@, now)
            },
    {
        let k = match self.task_index(task_id) {
            Some(k) => k,
            None => return Err(BoardError::TaskNotFound(task_id)),
        };
        let target = match self.column_index(column_name) {
            Some(c) => c,
            None => return Err(BoardError::ColumnNotFound(owned(column_name))),
        };
        let current = match self.column_position(self.tasks[k].column_id) {
            Some(c) => c,
            None => return Err(BoardError::ColumnNotFound(label("#", self.tasks[k].column_id))),
        };
        if !crate::board::room_for(self.activity.len()) {
            return Err(BoardError::StoreFull);
        }
        let mut metadata = label("Task #", task_id);
        push_str(&mut metadata, ": ");
        push_str(&mut metadata, self.columns[current].name.as_str());
        push_str(&mut metadata, " → ");
        push_str(&mut metadata, column_name);
        let target_id = self.columns[target].id;
        self.tasks[k].column_id = target_id;
        self.tasks[k].updated_at = now;
        assert(self.tasks@ == old(self).tasks@.update(k as int, self.tasks@[k as int]));
        self.log(Event::TaskMoved, metadata, now);
        Ok(())
    }
}

impl Board {
    /// Checks that a task can be started and returns the branch that git must
    /// create and check out for it.
    pub fn start_branch(&self, task_id: u64) -> (r: Result<String, BoardError>)
        ensures
            r is Ok <==> self.has_task(task_id) && named_column_id(self.columns@, "Doing"@) is Some
                && has_room(self.activity@.len()),
            !self.has_task(task_id) ==> r == Err::<String, BoardError>(BoardError::TaskNotFound(task_id)),
            self.has_task(task_id) && named_column_id(self.columns@, "Doing"@) is None
                ==> missing_column(r, "Doing"@),
            r matches Ok(b) ==> b@ == branch_name_of(task_id as nat, self.task(task_id).title@),
    {
        let k = match self.task_index(task_id) {
            Some(k) => k,
            None => return Err(BoardError::TaskNotFound(task_id)),
        };
        if self.column_index("Doing").is_none() {
            return Err(BoardError::ColumnNotFound(owned("Doing")));
        }
        if !crate::board::room_for(self.activity.len()) {
            return Err(BoardError::StoreFull);
        }
        Ok(branch_name(task_id, self.tasks[k].title.as_str()))
    }

    /// Starts work on a task once git has tried to create and check out its
    /// branch: on success records the branch and moves the task to Doing; when
    /// git failed, changes nothing.
    pub fn start_task(&mut self, task_id: u64, git: Result<(), String>, now: i64) -> (r: Result<String, BoardError>)
        requires
            old(self).wf(),
        ensures
            final(self).wf(),
            r is Ok <==> old(self).has_task(task_id) && named_column_id(old(self).columns@, "Doing"@) is Some
                && has_room(old(self).activity@.len()) && git is Ok,
            !old(self).has_task(task_id) ==> r == Err::<String, BoardError>(BoardError::TaskNotFound(task_id)),
            old(self).has_task(task_id) && named_column_id(old(self).columns@, "Doing"@) is None
                ==> missing_column(r, "Doing"@),
            old(self).has_task(task_id) && named_column_id(old(self).columns@, "Doing"@) is Some
                && has_room(old(self).activity@.len()) && git is Err
                ==> r == Err::<String, BoardError>(BoardError::GitFailure(git->Err_0)),
            r is Err ==> *final(self) == *old(self),
            r matches Ok(b) ==> {
                &&& b@ == branch_name_of(task_id as nat, old(self).task(task_id).title@)
                &&& b@.len() > 0
                &&& final(self).tasks@ == old(self).tasks@.update(task_id - 1, final(self).task(task_id))
                &&& advanced_task(old(self).task(task_id), final(self).task(task_id),
                    named_column_id(old(self).columns@, "Doing"@)->0, now, Some(b), old(self).task(task_id).pr_url)
                &&& same_but_tasks(*old(self), *final(self))
                &&& logged(old(self).activity@, final(self).activity@, Event::TaskStarted,
                    task_label(task_id) + ": created branch "@ + b@, now)
            },
    {
        let k = match self.task_index(task_id) {
            Some(k) => k,
            None => return Err(BoardError::TaskNotFound(task_id)),
        };
        let doing = match self.column_index("Doing") {
            Some(c) => self.columns[c].id,
            None => return Err(BoardError::ColumnNotFound(owned("Doing"))),
        };
        if !crate::board::room_for(self.activity.len()) {
            return Err(BoardError::StoreFull);
        }
        if let Err(message) = git {
            return Err(BoardError::GitFailure(message));
        }
        let branch = branch_name(task_id, self.tasks[k].title.as_str());
        let mut metadata = label("Task #", task_id);
        push_str(&mut metadata, ": created branch ");
        push_str(&mut metadata, branch.as_str());
        self.tasks[k].branch_name = Some(branch.clone());
        self.tasks[k].column_id = doing;
        self.tasks[k].updated_at = now;
        assert(self.tasks@ == old(self).tasks@.update(k as int, self.tasks@[k as int]));
        self.log(Event::TaskStarted, metadata, now);
        Ok(branch)
    }

    /// Checks that a task can be completed and says what git must do: commit
    /// staged changes with the message given (or `Closes #{id}: {title}`), and
    /// push the task's branch if it has one.
    pub fn done_plan(&self, task_id: u64, message: Option<String>) -> (r: Result<DonePlan, BoardError>)
        ensures
            r is Ok <==> self.has_task(task_id) && named_column_id(self.columns@, "Done"@) is Some
                && has_room(self.activity@.len()),
            !self.has_task(task_id) ==> r == Err::<DonePlan, BoardError>(BoardError::TaskNotFound(task_id)),
            self.has_task(task_id) && named_column_id(self.columns@, "Done"@) is None
                ==> missing_column(r, "Done"@),
            r matches Ok(plan) ==> {
                &&& plan.commit_message@ == commit_message_of(task_id, self.task(task_id).title@,
                    match message { Some(m) => Some(m@), None => None })
                &&& plan.push_branch == self.task(task_id).branch_name
            },
    {
        let k = match self.task_index(task_id) {
            Some(k) => k,
            None => return Err(BoardError::TaskNotFound(task_id)),
        };
        if self.column_index("Done").is_none() {
            return Err(BoardError::ColumnNotFound(owned("Done")));
        }
        if !crate::board::room_for(self.activity.len()) {
            return Err(BoardError::StoreFull);
        }
        let commit_message = match message {
            Some(m) => m,
            None => {
                let mut m = label("Closes #", task_id);
                push_str(&mut m, ": ");
                push_str(&mut m, self.tasks[k].title.as_str());
                m
            },
        };
        let push_branch = match &self.tasks[k].branch_name {
            Some(b) => Some(b.clone()),
            None => None,
        };
        Ok(DonePlan { commit_message, push_branch })
    }

    /// Completes a task once git has committed and pushed as `done_plan` said:
    /// on success moves the task to Done; when git failed, changes nothing.
    pub fn complete_task(&mut self, task_id: u64, git: Result<(), String>, now: i64) -> (r: Result<(), BoardError>)
        requires
            old(self).wf(),
        ensures
            final(self).wf(),
            r is Ok <==> old(self).has_task(task_id) && named_column_id(old(self).columns@, "Done"@) is Some
                && has_room(old(self).activity@.len()) && git is Ok,
            !old(self).has_task(task_id) ==> r == Err::<(), BoardError>(BoardError::TaskNotFound(task_id)),
            old(self).has_task(task_id) && named_column_id(old(self).columns@, "Done"@) is None
                ==> missing_column(r, "Done"@),
            old(self).has_task(task_id) && named_column_id(old(self).columns@, "Done"@) is Some
                && has_room(old(self).activity@.len()) && git is Err
                ==> r == Err::<(), BoardError>(BoardError::GitFailure(git->Err_0)),
            r is Err ==> *final(self) == *old(self),
            r is Ok ==> {
                &&& final(self).tasks@ == old(self).tasks@.update(task_id - 1, final(self).task(task_id))
                &&& moved_task(old(self).task(task_id), final(self).task(task_id),
                    named_column_id(old(self).columns@, "Done"@)->0, now)
                &&& same_but_tasks(*old(self), *final(self))
                &&& logged(old(self).activity@, final(self).activity@, Event::TaskCompleted,
                    task_label(task_id) + ": "@ + old(self).task(task_id).title@, now)
            },
    {
        let k = match self.task_index(task_id) {
            Some(k) => k,
            None => return Err(BoardError::TaskNotFound(task_id)),
        };
        let done = match self.column_index("Done") {
            Some(c) => self.columns[c].id,
            None => return Err(BoardError::ColumnNotFound(owned("Done"))),
        };
        if !crate::board::room_for(self.activity.len()) {
            return Err(BoardError::StoreFull);
        }
        if let Err(message) = git {
            return Err(BoardError::GitFailure(message));
        }
        let mut metadata = label("Task #", task_id);
        push_str(&mut metadata, ": ");
        push_str(&mut metadata, self.tasks[k].title.as_str());
        self.tasks[k].column_id = done;
        self.tasks[k].updated_at = now;
        assert(self.tasks@ == old(self).tasks@.update(k as int, self.tasks@[k as int]));
        self.log(Event::TaskCompleted, metadata, now);
        Ok(())
    }
}

impl Board {
    /// Checks that a task can be submitted for review and returns the branch
    /// that git must push. A task without a branch cannot be submitted.
    pub fn submit_branch(&self, task_id: u64) -> (r: Result<String, BoardError>)
        ensures
            r is Ok <==> self.has_task(task_id) && has_branch(self.task(task_id))
                && named_column_id(self.columns@, "Review"@) is Some && has_room(self.activity@.len()),
            !self.has_task(task_id) ==> r == Err::<String, BoardError>(BoardError::TaskNotFound(task_id)),
            self.has_task(task_id) && !has_branch(self.task(task_id))
                ==> r == Err::<String, BoardError>(BoardError::NoBranch(task_id)),
            self.has_task(task_id) && has_branch(self.task(task_id))
                && named_column_id(self.columns@, "Review"@) is None ==> missing_column(r, "Review"@),
            r matches Ok(b) ==> self.task(task_id).branch_name == Some(b),
    {
        let k = match self.task_index(task_id) {
            Some(k) => k,
            None => return Err(BoardError::TaskNotFound(task_id)),
        };
        let branch = match &self.tasks[k].branch_name {
            Some(b) => b,
            None => return Err(BoardError::NoBranch(task_id)),
        };
        if branch.as_str().unicode_len() == 0 {
            return Err(BoardError::NoBranch(task_id));
        }
        if self.column_index("Review").is_none() {
            return Err(BoardError::ColumnNotFound(owned("Review")));
        }
        if !crate::board::room_for(self.activity.len()) {
            return Err(BoardError::StoreFull);
        }
        Ok(branch.clone())
    }

    /// Submits a task for review once git has tried to push its branch: on
    /// success opens a review request (or falls back to a link that asks for a
    /// manual one), records the link and moves the task to Review. A failed
    /// review request never stops the submission; a failed push changes
    /// nothing.
    pub fn submit_task(
        &mut self,
        task_id: u64,
        push: Result<(), String>,
        remote_url: Option<String>,
        token: Option<String>,
        now: i64,
    ) -> (r: Result<String, BoardError>)
        requires
            old(self).wf(),
        ensures
            final(self).wf(),
            r is Ok <==> old(self).has_task(task_id) && has_branch(old(self).task(task_id))
                && named_column_id(old(self).columns@, "Review"@) is Some
                && has_room(old(self).activity@.len()) && push is Ok,
            !old(self).has_task(task_id) ==> r == Err::<String, BoardError>(BoardError::TaskNotFound(task_id)),
            old(self).has_task(task_id) && !has_branch(old(self).task(task_id))
                ==> r == Err::<String, BoardError>(BoardError::NoBranch(task_id)),
            old(self).has_task(task_id) && has_branch(old(self).task(task_id))
                && named_column_id(old(self).columns@, "Review"@) is None ==> missing_column(r, "Review"@),
            old(self).has_task(task_id) && has_branch(old(self).task(task_id))
                && named_column_id(old(self).columns@, "Review"@) is Some
                && has_room(old(self).activity@.len()) && push is Err
                ==> r == Err::<String, BoardError>(BoardError::GitFailure(push->Err_0)),
            r is Err ==> *final(self) == *old(self),
            r matches Ok(link) ==> {
                &&& link@ == review_link_of(match remote_url { Some(u) => Some(u@), None => None },
                    token is Some, old(self).task(task_id).branch_name->0@)
                &&& final(self).tasks@ == old(self).tasks@.update(task_id - 1, final(self).task(task_id))
                &&& advanced_task(old(self).task(task_id), final(self).task(task_id),
                    named_column_id(old(self).columns@, "Review"@)->0, now,
                    old(self).task(task_id).branch_name, Some(link))
                &&& same_but_tasks(*old(self), *final(self))
                &&& logged(old(self).activity@, final(self).activity@, Event::TaskSubmitted,
                    task_label(task_id) + ": PR created"@, now)
            },
    {
        let k = match self.task_index(task_id) {
            Some(k) => k,
            None => return Err(BoardError::TaskNotFound(task_id)),
        };
        let branch = match &self.tasks[k].branch_name {
            Some(b) => b.clone(),
            None => return Err(BoardError::NoBranch(task_id)),
        };
        if branch.as_str().unicode_len() == 0 {
            return Err(BoardError::NoBranch(task_id));
        }
        let review = match self.column_index("Review") {
            Some(c) => self.columns[c].id,
            None => return Err(BoardError::ColumnNotFound(owned("Review"))),
        };
        if !crate::board::room_for(self.activity.len()) {
            return Err(BoardError::StoreFull);
        }
        if let Err(message) = push {
            return Err(BoardError::GitFailure(message));
        }
        let mut title = label("Task #", task_id);
        push_str(&mut title, ": ");
        push_str(&mut title, self.tasks[k].title.as_str());
        let body = match &self.tasks[k].description {
            Some(d) => d.clone(),
            None => String::new(),
        };
        let link = review_link(&remote_url, token, title.as_str(), body.as_str(), branch.as_str());
        let mut metadata = label("Task #", task_id);
        push_str(&mut metadata, ": PR created");
        self.tasks[k].pr_url = Some(link.clone());
        self.tasks[k].column_id = review;
        self.tasks[k].updated_at = now;
        assert(self.tasks@ == old(self).tasks@.update(k as int, self.tasks@[k as int]));
        self.log(Event::TaskSubmitted, metadata, now);
        Ok(link)
    }

    /// Records a new idea and returns its id.
    pub fn create_idea(&mut self, content: String, now: i64) -> (r: Result<u64, BoardError>)
        requires
            old(self).wf(),
        ensures
            final(self).wf(),
            r is Ok <==> old(self).next_idea_id + 1 < u64::MAX && has_room(old(self).activity@.len()),
            r is Err ==> r == Err::<u64, BoardError>(BoardError::StoreFull) && *final(self) == *old(self),
            r matches Ok(id) ==> {
                &&& id == old(self).next_idea_id
                &&& final(self).next_idea_id == id + 1
                &&& final(self).ideas@.len() == old(self).ideas@.len() + 1
                &&& final(self).ideas@.drop_last() == old(self).ideas@
                &&& final(self).ideas@.last().id == id
                &&& final(self).ideas@.last().content == content
                &&& final(self).ideas@.last().created_at == now
                &&& final(self).project == old(self).project
                &&& final(self).columns == old(self).columns
                &&& final(self).tasks == old(self).tasks
                &&& final(self).comments == old(self).comments
                &&& logged(old(self).activity@, final(self).activity@, Event::IdeaCreated,
                    idea_label(id) + ": "@ + content@, now)
            },
    {
        if self.next_idea_id >= u64::MAX - 1 || !crate::board::room_for(self.activity.len()) {
            return Err(BoardError::StoreFull);
        }
        let id = self.next_idea_id;
        let mut metadata = label("Idea #", id);
        push_str(&mut metadata, ": ");
        push_str(&mut metadata, content.as_str());
        self.ideas.push(Idea { id, content, created_at: now });
        self.next_idea_id = id + 1;
        assert(self.ideas@.drop_last() == old(self).ideas@);
        self.log(Event::IdeaCreated, metadata, now);
        Ok(id)
    }

    /// Turns an idea into a task in the Backlog column, with the idea's content
    /// as its title and no description, and removes the idea. Returns the new
    /// task's id.
    pub fn promote_idea(&mut self, idea_id: u64, now: i64) -> (r: Result<u64, BoardError>)
        requires
            old(self).wf(),
        ensures
            final(self).wf(),
            r is Ok <==> old(self).has_idea(idea_id) && named_column_id(old(self).columns@, "Backlog"@) is Some
                && has_room(old(self).tasks@.len()) && has_room(old(self).activity@.len()),
            !old(self).has_idea(idea_id) ==> r == Err::<u64, BoardError>(BoardError::IdeaNotFound(idea_id)),
            old(self).has_idea(idea_id) && named_column_id(old(self).columns@, "Backlog"@) is None
                ==> missing_column(r, "Backlog"@),
            r is Err ==> *final(self) == *old(self),
            r matches Ok(id) ==> exists|k: int| {
                &&& 0 <= k < old(self).ideas@.len()
                &&& (#[trigger] old(self).ideas@[k]).id == idea_id
                &&& final(self).ideas@ == old(self).ideas@.remove(k)
                &&& id == old(self).tasks@.len() + 1
                &&& final(self).tasks@.len() == id
                &&& final(self).tasks@.drop_last() == old(self).tasks@
                &&& final(self).task(id).id == id
                &&& final(self).task(id).title == old(self).ideas@[k].content
                &&& final(self).task(id).description is None
                &&& final(self).task(id).column_id == named_column_id(old(self).columns@, "Backlog"@)->0
                &&& final(self).task(id).assignee is None
                &&& final(self).task(id).created_at == now
                &&& final(self).task(id).updated_at == now
                &&& final(self).task(id).branch_name is None
                &&& final(self).task(id).pr_url is None
                &&& logged(old(self).activity@, final(self).activity@, Event::IdeaPromoted,
                    idea_label(idea_id) + " → "@ + task_label(id) + ": "@ + old(self).ideas@[k].content@, now)
            },
            r is Ok ==> !final(self).has_idea(idea_id),
            r is Ok ==> final(self).project == old(self).project && final(self).columns == old(self).columns
                && final(self).comments == old(self).comments && final(self).next_idea_id == old(self).next_idea_id,
    {
        let k = match self.idea_index(idea_id) {
            Some(k) => k,
            None => return Err(BoardError::IdeaNotFound(idea_id)),
        };
        let backlog = match self.column_index("Backlog") {
            Some(c) => self.columns[c].id,
            None => return Err(BoardError::ColumnNotFound(owned("Backlog"))),
        };
        if !crate::board::room_for(self.tasks.len()) || !crate::board::room_for(self.activity.len()) {
            return Err(BoardError::StoreFull);
        }
        let id = self.tasks.len() as u64 + 1;
        let idea = self.ideas.remove(k);
        proof {
            let ideas = self.ideas@;
            let before = old(self).ideas@;
            assert(ideas == before.remove(k as int));
            assert forall|i: int, j: int| 0 <= i < j < ideas.len() implies
                (#[trigger] ideas[i]).id < (#[trigger] ideas[j]).id by {
                let bi = if i < k { i } else { i + 1 };
                let bj = if j < k { j } else { j + 1 };
                assert(ideas[i] == before[bi]);
                assert(ideas[j] == before[bj]);
            }
            assert forall|i: int| 0 <= i < ideas.len() implies (#[trigger] ideas[i]).id != idea_id by {
                let bi = if i < k { i } else { i + 1 };
                assert(ideas[i] == before[bi]);
                if bi < k {
                    assert(before[bi].id < before[k as int].id);
                } else {
                    assert(before[k as int].id < before[bi].id);
                }
            }
            assert forall|i: int| 0 <= i < ideas.len() implies (#[trigger] ideas[i]).id < self.next_idea_id by {
                let bi = if i < k { i } else { i + 1 };
                assert(ideas[i] == before[bi]);
            }
        }
        let mut metadata = label("Idea #", idea_id);
        push_str(&mut metadata, " → ");
        let task_part = label("Task #", id);
        push_str(&mut metadata, task_part.as_str());
        push_str(&mut metadata, ": ");
        push_str(&mut metadata, idea.content.as_str());
        let task = Task {
            id,
            title: idea.content,
            description: None,
            column_id: backlog,
            assignee: None,
            created_at: now,
            updated_at: now,
            branch_name: None,
            pr_url: None,
        };
        self.tasks.push(task);
        assert(self.tasks@.drop_last() == old(self).tasks@);
        self.log(Event::IdeaPromoted, metadata, now);
        assert(old(self).ideas@[k as int].id == idea_id);
        Ok(id)
    }

    /// Adds a comment by `author` to a task and returns the comment's id.
    pub fn add_comment(&mut self, task_id: u64, author: String, text: String, now: i64) -> (r: Result<u64, BoardError>)
        requires
            old(self).wf(),
        ensures
            final(self).wf(),
            r is Ok <==> old(self).has_task(task_id) && has_room(old(self).comments@.len())
                && has_room(old(self).activity@.len()),
            !old(self).has_task(task_id) ==> r == Err::<u64, BoardError>(BoardError::TaskNotFound(task_id)),
            r is Err ==> *final(self) == *old(self),
            r matches Ok(id) ==> {
                &&& id == old(self).comments@.len() + 1
                &&& final(self).comments@.len() == id
                &&& final(self).comments@.drop_last() == old(self).comments@
                &&& final(self).comments@.last().id == id
                &&& final(self).comments@.last().task_id == task_id
                &&& final(self).comments@.last().author == author
                &&& final(self).comments@.last().text == text
                &&& final(self).comments@.last().created_at == now
                &&& final(self).project == old(self).project
                &&& final(self).columns == old(self).columns
                &&& final(self).tasks == old(self).tasks
                &&& final(self).ideas == old(self).ideas
                &&& final(self).next_idea_id == old(self).next_idea_id
                &&& logged(old(self).activity@, final(self).activity@, Event::CommentAdded,
                    task_label(task_id) + ": comment by "@ + author@, now)
            },
    {
        if self.task_index(task_id).is_none() {
            return Err(BoardError::TaskNotFound(task_id));
        }
        if !crate::board::room_for(self.comments.len()) || !crate::board::room_for(self.activity.len()) {
            return Err(BoardError::StoreFull);
        }
        let id = self.comments.len() as u64 + 1;
        let mut metadata = label("Task #", task_id);
        push_str(&mut metadata, ": comment by ");
        push_str(&mut metadata, author.as_str());
        self.comments.push(Comment { id, task_id, author, text, created_at: now });
        assert(self.comments@.drop_last() == old(self).comments@);
        self.log(Event::CommentAdded, metadata, now);
        Ok(id)
    }
}

/// An operation's log entry is appended after the entries already there: the
/// count grows by one and no earlier entry changes.
pub proof fn lemma_logged_extends(before: Seq<ActivityLog>, after: Seq<ActivityLog>, event: Event, metadata: Seq<char>, now: i64)
    requires
        logged(before, after, event, metadata, now),
    ensures
        log_extends(before, after),
        after.len() == before.len() + 1,
{
    assert(after.subrange(0, before.len() as int) == after.drop_last());
}

/// Each successful operation leaves the earlier log entries in place; chained
/// over any sequence of operations, the log only grows.
pub proof fn lemma_log_only_grows(a: Seq<ActivityLog>, b: Seq<ActivityLog>, c: Seq<ActivityLog>)
    requires
        log_extends(a, b),
        log_extends(b, c),
    ensures
        log_extends(a, c),
        a.len() <= c.len(),
{
    assert(c.subrange(0, a.len() as int) == c.subrange(0, b.len() as int).subrange(0, a.len() as int));
}

} // verus!
