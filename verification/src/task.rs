//! Tasks, their status and their priority.

use vstd::prelude::*;

use crate::clock::{day_of, day_number, now_nanos, valid_time};
use crate::error::Error;
use crate::text::{all_ascii, ascii_lower, lower_text, str_eq, string_from, to_lowercase};

verus! {

/// Where a task stands.
#[derive(Debug, Clone, Copy, PartialEq, Eq, Structural)]
pub enum TaskStatus {
    Todo,
    InProgress,
    Done,
    Cancelled,
}

/// How urgent a task is.
#[derive(Debug, Clone, Copy, PartialEq, Eq, Structural)]
pub enum Priority {
    Low,
    Normal,
    High,
    Urgent,
}

/// The status that a lower-case word names, if any.
pub open spec fn status_from_lower(l: Seq<char>) -> Option<TaskStatus> {
    if l == "todo"@ || l == "t"@ {
        Some(TaskStatus::Todo)
    } else if l == "in_progress"@ || l == "inprogress"@ || l == "progress"@ || l == "p"@ || l
        == "active"@ || l == "a"@ {
        Some(TaskStatus::InProgress)
    } else if l == "done"@ || l == "d"@ || l == "complete"@ || l == "completed"@ || l == "c"@ {
        Some(TaskStatus::Done)
    } else if l == "cancelled"@ || l == "cancel"@ || l == "x"@ {
        Some(TaskStatus::Cancelled)
    } else {
        None
    }
}

/// The canonical name of a status, as it is displayed and stored.
pub open spec fn status_name(s: TaskStatus) -> Seq<char> {
    match s {
        TaskStatus::Todo => "todo"@,
        TaskStatus::InProgress => "in_progress"@,
        TaskStatus::Done => "done"@,
        TaskStatus::Cancelled => "cancelled"@,
    }
}

/// The priority that a lower-case word names, if any.
pub open spec fn priority_from_lower(l: Seq<char>) -> Option<Priority> {
    if l == "low"@ || l == "l"@ || l == "1"@ {
        Some(Priority::Low)
    } else if l == "normal"@ || l == "n"@ || l == "2"@ {
        Some(Priority::Normal)
    } else if l == "high"@ || l == "h"@ || l == "3"@ {
        Some(Priority::High)
    } else if l == "urgent"@ || l == "u"@ || l == "4"@ || l == "critical"@ {
        Some(Priority::Urgent)
    } else {
        None
    }
}

/// The canonical name of a priority, as it is displayed and stored.
pub open spec fn priority_name(p: Priority) -> Seq<char> {
    match p {
        Priority::Low => "low"@,
        Priority::Normal => "normal"@,
        Priority::High => "high"@,
        Priority::Urgent => "urgent"@,
    }
}

/// The sort rank of a priority: higher is more urgent.
pub open spec fn priority_rank(p: Priority) -> int {
    match p {
        Priority::Low => 1,
        Priority::Normal => 2,
        Priority::High => 3,
        Priority::Urgent => 4,
    }
}

/// What parsing `s` as a status gives.
pub open spec fn parse_status_result(s: Seq<char>, r: Result<TaskStatus, Error>) -> bool {
    match r {
        Ok(st) => status_from_lower(lower_text(s)) == Some(st),
        Err(e) => status_from_lower(lower_text(s)) is None && e is InvalidStatus
            && e->InvalidStatus_0@ == s,
    }
}

/// What parsing `s` as a priority gives.
pub open spec fn parse_priority_result(s: Seq<char>, r: Result<Priority, Error>) -> bool {
    match r {
        Ok(p) => priority_from_lower(lower_text(s)) == Some(p),
        Err(e) => priority_from_lower(lower_text(s)) is None && e is InvalidPriority
            && e->InvalidPriority_0@ == s,
    }
}

impl TaskStatus {
    /// All statuses, in order.
    pub fn all() -> (r: [TaskStatus; 4])
        ensures
            r@ == seq![TaskStatus::Todo, TaskStatus::InProgress, TaskStatus::Done, TaskStatus::Cancelled],
    {
        [TaskStatus::Todo, TaskStatus::InProgress, TaskStatus::Done, TaskStatus::Cancelled]
    }

    /// Whether a task with this status is finished (done or cancelled).
    pub fn is_completed(&self) -> (r: bool)
        ensures
            r <==> (*self == TaskStatus::Done || *self == TaskStatus::Cancelled),
    {
        match self {
            TaskStatus::Done | TaskStatus::Cancelled => true,
            _ => false,
        }
    }

    /// The symbol shown beside the status.
    pub fn emoji(&self) -> (r: &'static str)
        ensures
            r@ == (match *self {
                TaskStatus::Todo => "○"@,
                TaskStatus::InProgress => "▶"@,
                TaskStatus::Done => "✓"@,
                TaskStatus::Cancelled => "✗"@,
            }),
    {
        match self {
            TaskStatus::Todo => "○",
            TaskStatus::InProgress => "▶",
            TaskStatus::Done => "✓",
            TaskStatus::Cancelled => "✗",
        }
    }

    /// The canonical name of the status.
    pub fn as_str(&self) -> (r: &'static str)
        ensures
            r@ == status_name(*self),
    {
        match self {
            TaskStatus::Todo => "todo",
            TaskStatus::InProgress => "in_progress",
            TaskStatus::Done => "done",
            TaskStatus::Cancelled => "cancelled",
        }
    }

    /// The canonical name of the status, as an owned string.
    pub fn to_string(&self) -> (r: String)
        ensures
            r@ == status_name(*self),
    {
        string_from(self.as_str())
    }

    /// The status named by an already lower-cased word.
    pub fn from_lowercase(l: &str) -> (r: Option<TaskStatus>)
        ensures
            r == status_from_lower(l@),
    {
        if str_eq(l, "todo") || str_eq(l, "t") {
            Some(TaskStatus::Todo)
        } else if str_eq(l, "in_progress") || str_eq(l, "inprogress") || str_eq(l, "progress")
            || str_eq(l, "p") || str_eq(l, "active") || str_eq(l, "a") {
            Some(TaskStatus::InProgress)
        } else if str_eq(l, "done") || str_eq(l, "d") || str_eq(l, "complete") || str_eq(
            l,
            "completed",
        ) || str_eq(l, "c") {
            Some(TaskStatus::Done)
        } else if str_eq(l, "cancelled") || str_eq(l, "cancel") || str_eq(l, "x") {
            Some(TaskStatus::Cancelled)
        } else {
            None
        }
    }

    /// Parses a status name or alias, ignoring case.
    pub fn parse(s: &str) -> (r: Result<TaskStatus, Error>)
        ensures
            parse_status_result(s@, r),
    {
        let lower = to_lowercase(s);
        match TaskStatus::from_lowercase(lower.as_str()) {
            Some(st) => Ok(st),
            None => Err(Error::InvalidStatus(string_from(s))),
        }
    }
}

impl std::str::FromStr for TaskStatus {
    type Err = Error;

    /// Parses a status name or alias, ignoring case (see `parse`).
    fn from_str(s: &str) -> (r: Result<TaskStatus, Error>)
        ensures
            parse_status_result(s@, r),
    {
        TaskStatus::parse(s)
    }
}

impl Priority {
    /// All priorities, from least to most urgent.
    pub fn all() -> (r: [Priority; 4])
        ensures
            r@ == seq![Priority::Low, Priority::Normal, Priority::High, Priority::Urgent],
    {
        [Priority::Low, Priority::Normal, Priority::High, Priority::Urgent]
    }

    /// The symbol shown beside the priority.
    pub fn emoji(&self) -> (r: &'static str)
        ensures
            r@ == (match *self {
                Priority::Low => "🟢"@,
                Priority::Normal => "⚪"@,
                Priority::High => "🟡"@,
                Priority::Urgent => "🔴"@,
            }),
    {
        match self {
            Priority::Low => "🟢",
            Priority::Normal => "⚪",
            Priority::High => "🟡",
            Priority::Urgent => "🔴",
        }
    }

    /// The sort rank of the priority: higher is more urgent.
    pub fn order(&self) -> (r: i32)
        ensures
            r == priority_rank(*self),
    {
        match self {
            Priority::Low => 1,
            Priority::Normal => 2,
            Priority::High => 3,
            Priority::Urgent => 4,
        }
    }

    /// The canonical name of the priority.
    pub fn as_str(&self) -> (r: &'static str)
        ensures
            r@ == priority_name(*self),
    {
        match self {
            Priority::Low => "low",
            Priority::Normal => "normal",
            Priority::High => "high",
            Priority::Urgent => "urgent",
        }
    }

    /// The canonical name of the priority, as an owned string.
    pub fn to_string(&self) -> (r: String)
        ensures
            r@ == priority_name(*self),
    {
        string_from(self.as_str())
    }

    /// The priority named by an already lower-cased word.
    pub fn from_lowercase(l: &str) -> (r: Option<Priority>)
        ensures
            r == priority_from_lower(l@),
    {
        if str_eq(l, "low") || str_eq(l, "l") || str_eq(l, "1") {
            Some(Priority::Low)
        } else if str_eq(l, "normal") || str_eq(l, "n") || str_eq(l, "2") {
            Some(Priority::Normal)
        } else if str_eq(l, "high") || str_eq(l, "h") || str_eq(l, "3") {
            Some(Priority::High)
        } else if str_eq(l, "urgent") || str_eq(l, "u") || str_eq(l, "4") || str_eq(
            l,
            "critical",
        ) {
            Some(Priority::Urgent)
        } else {
            None
        }
    }

    /// Parses a priority name, alias or number, ignoring case.
    pub fn parse(s: &str) -> (r: Result<Priority, Error>)
        ensures
            parse_priority_result(s@, r),
    {
        let lower = to_lowercase(s);
        match Priority::from_lowercase(lower.as_str()) {
            Some(p) => Ok(p),
            None => Err(Error::InvalidPriority(string_from(s))),
        }
    }
}

impl Default for Priority {
    fn default() -> (r: Priority)
        ensures
            r == Priority::Normal,
    {
        Priority::Normal
    }
}

impl std::str::FromStr for Priority {
    type Err = Error;

    /// Parses a priority name, alias or number, ignoring case (see
    /// `parse`).
    fn from_str(s: &str) -> (r: Result<Priority, Error>)
        ensures
            parse_priority_result(s@, r),
    {
        Priority::parse(s)
    }
}

/// Whether an optional point in time is representable.
pub open spec fn valid_opt_time(t: Option<i128>) -> bool {
    match t {
        Some(v) => valid_time(v as int),
        None => true,
    }
}

/// A task within a project.  Points in time are nanoseconds since the
/// epoch.
#[derive(Debug, Clone)]
pub struct Task {
    /// Identifier given by the storage (0 until stored).
    pub id: i32,
    /// Project the task belongs to.
    pub project_id: String,
    /// Title.
    pub title: String,
    /// Longer notes.
    pub description: Option<String>,
    /// Current status.
    pub status: TaskStatus,
    /// Priority.
    pub priority: Priority,
    /// When the task is due.
    pub due_date: Option<i128>,
    /// When the task was created.
    pub created_at: i128,
    /// When the task was last changed.
    pub updated_at: i128,
    /// When the task was completed.
    pub completed_at: Option<i128>,
}

/// Whether a task is overdue at `now`: it has a due date before `now` and
/// is not finished.
pub open spec fn task_overdue(t: Task, now: int) -> bool {
    match t.due_date {
        Some(d) => !(t.status == TaskStatus::Done || t.status == TaskStatus::Cancelled) && (d as int)
            < now,
        None => false,
    }
}

/// Whether a task is due on the UTC day of `now`.
pub open spec fn task_due_on_day_of(t: Task, now: int) -> bool {
    match t.due_date {
        Some(d) => day_of(d as int) == day_of(now),
        None => false,
    }
}

impl Task {
    /// Whether all points in time of the task are representable.
    pub open spec fn wf(&self) -> bool {
        &&& valid_opt_time(self.due_date)
        &&& valid_time(self.created_at as int)
        &&& valid_time(self.updated_at as int)
        &&& valid_opt_time(self.completed_at)
    }

    /// A copy of the task.
    pub fn duplicate(&self) -> (t: Task)
        ensures
            t == *self,
    {
        Task {
            id: self.id,
            project_id: self.project_id.clone(),
            title: self.title.clone(),
            description: match &self.description {
                Some(d) => Some(d.clone()),
                None => None,
            },
            status: self.status,
            priority: self.priority,
            due_date: self.due_date,
            created_at: self.created_at,
            updated_at: self.updated_at,
            completed_at: self.completed_at,
        }
    }

    /// A new task, to do, of normal priority, created at `now`.
    pub fn new_at(project_id: &str, title: &str, now: i128) -> (t: Task)
        requires
            valid_time(now as int),
        ensures
            t.wf(),
            t.id == 0,
            t.project_id@ == project_id@,
            t.title@ == title@,
            t.description is None,
            t.status == TaskStatus::Todo,
            t.priority == Priority::Normal,
            t.due_date is None,
            t.created_at == now,
            t.updated_at == now,
            t.completed_at is None,
    {
        Task {
            id: 0,
            project_id: string_from(project_id),
            title: string_from(title),
            description: None,
            status: TaskStatus::Todo,
            priority: Priority::default(),
            due_date: None,
            created_at: now,
            updated_at: now,
            completed_at: None,
        }
    }

    /// A new task, to do, of normal priority, created now.
    pub fn new(project_id: &str, title: &str) -> (t: Task)
        ensures
            t.wf(),
            t.id == 0,
            t.project_id@ == project_id@,
            t.title@ == title@,
            t.description is None,
            t.status == TaskStatus::Todo,
            t.priority == Priority::Normal,
            t.due_date is None,
            t.created_at == t.updated_at,
            t.completed_at is None,
    {
        let now = now_nanos();
        Task::new_at(project_id, title, now)
    }

    /// The same task with another priority.
    pub fn with_priority(self, priority: Priority) -> (t: Task)
        ensures
            t == (Task { priority, ..self }),
    {
        let mut t = self;
        t.priority = priority;
        t
    }

    /// The same task with a due date.
    pub fn with_due_date(self, due_date: i128) -> (t: Task)
        ensures
            t == (Task { due_date: Some(due_date), ..self }),
    {
        let mut t = self;
        t.due_date = Some(due_date);
        t
    }

    /// The same task with a description.
    pub fn with_description(self, description: &str) -> (t: Task)
        ensures
            t.description is Some,
            t.description->0@ == description@,
            t == (Task { description: t.description, ..self }),
    {
        let mut t = self;
        t.description = Some(string_from(description));
        t
    }

    /// Marks the task done, completed at `completed_at` and changed at
    /// `updated_at`.
    pub fn complete_at(&mut self, completed_at: i128, updated_at: i128)
        ensures
            *final(self) == (Task {
                status: TaskStatus::Done,
                completed_at: Some(completed_at),
                updated_at,
                ..*old(self)
            }),
    {
        self.status = TaskStatus::Done;
        self.completed_at = Some(completed_at);
        self.updated_at = updated_at;
    }

    /// Marks the task done now.
    pub fn complete(&mut self)
        ensures
            final(self).status == TaskStatus::Done,
            final(self).completed_at is Some,
            valid_time(final(self).completed_at->0 as int),
            valid_time(final(self).updated_at as int),
            *final(self) == (Task {
                status: TaskStatus::Done,
                completed_at: final(self).completed_at,
                updated_at: final(self).updated_at,
                ..*old(self)
            }),
    {
        let completed_at = now_nanos();
        let updated_at = now_nanos();
        self.complete_at(completed_at, updated_at);
    }

    /// Marks the task in progress, changed at `now`.
    pub fn start_at(&mut self, now: i128)
        ensures
            *final(self) == (Task { status: TaskStatus::InProgress, updated_at: now, ..*old(self) }),
    {
        self.status = TaskStatus::InProgress;
        self.updated_at = now;
    }

    /// Marks the task in progress now.
    pub fn start(&mut self)
        ensures
            valid_time(final(self).updated_at as int),
            *final(self) == (Task {
                status: TaskStatus::InProgress,
                updated_at: final(self).updated_at,
                ..*old(self)
            }),
    {
        let now = now_nanos();
        self.start_at(now);
    }

    /// Whether the task is overdue at `now`.
    pub fn is_overdue_at(&self, now: i128) -> (r: bool)
        ensures
            r == task_overdue(*self, now as int),
    {
        match self.due_date {
            Some(due) => !self.status.is_completed() && due < now,
            None => false,
        }
    }

    /// Whether the task is overdue now: what `is_overdue_at` gives at the
    /// moment the clock reads.  Whatever it reads, a task without a due date
    /// or already finished is not overdue.
    pub fn is_overdue(&self) -> (r: bool)
        ensures
            exists|now: int| valid_time(now) && r == #[trigger] task_overdue(*self, now),
            r ==> self.due_date is Some,
            r ==> !self.status.is_completed_spec(),
    {
        let now = now_nanos();
        self.is_overdue_at(now)
    }

    /// Whether the task is due on the UTC day of `now`.
    pub fn is_due_today_at(&self, now: i128) -> (r: bool)
        requires
            self.wf(),
            valid_time(now as int),
        ensures
            r == task_due_on_day_of(*self, now as int),
    {
        match self.due_date {
            Some(due) => day_number(due) == day_number(now),
            None => false,
        }
    }

    /// Whether the task is due today (UTC): what `is_due_today_at` gives at
    /// the moment the clock reads.  Whatever it reads, a task without a due
    /// date is not due today.
    pub fn is_due_today(&self) -> (r: bool)
        requires
            self.wf(),
        ensures
            exists|now: int| valid_time(now) && r == #[trigger] task_due_on_day_of(*self, now),
            r ==> self.due_date is Some,
    {
        let now = now_nanos();
        self.is_due_today_at(now)
    }
}

/// The canonical name of every status is ASCII and, read back, names that
/// status.
pub(crate) proof fn lemma_status_name(st: TaskStatus)
    ensures
        all_ascii(status_name(st)),
        ascii_lower(status_name(st)) == status_name(st),
        status_from_lower(status_name(st)) == Some(st),
{
    reveal_strlit("todo");
    reveal_strlit("t");
    reveal_strlit("in_progress");
    reveal_strlit("inprogress");
    reveal_strlit("progress");
    reveal_strlit("p");
    reveal_strlit("active");
    reveal_strlit("a");
    reveal_strlit("done");
    reveal_strlit("d");
    reveal_strlit("complete");
    reveal_strlit("completed");
    reveal_strlit("c");
    reveal_strlit("cancelled");
    reveal_strlit("cancel");
    reveal_strlit("x");
    assert(ascii_lower(status_name(st)) =~= status_name(st));
    match st {
        TaskStatus::Todo => {},
        TaskStatus::InProgress => {
            assert("in_progress"@ != "todo"@);
            assert("in_progress"@ != "t"@);
        },
        TaskStatus::Done => {
            assert("done"@[0] != "todo"@[0]);
            assert("done"@ != "todo"@);
            assert("done"@ != "t"@);
            assert("done"@ != "in_progress"@);
            assert("done"@ != "inprogress"@);
            assert("done"@ != "progress"@);
            assert("done"@ != "p"@);
            assert("done"@ != "active"@);
            assert("done"@ != "a"@);
        },
        TaskStatus::Cancelled => {
            assert("cancelled"@ != "todo"@);
            assert("cancelled"@ != "t"@);
            assert("cancelled"@ != "in_progress"@);
            assert("cancelled"@ != "inprogress"@);
            assert("cancelled"@ != "progress"@);
            assert("cancelled"@ != "p"@);
            assert("cancelled"@ != "active"@);
            assert("cancelled"@ != "a"@);
            assert("cancelled"@ != "done"@);
            assert("cancelled"@ != "d"@);
            assert("cancelled"@ != "complete"@);
            assert("cancelled"@[1] != "completed"@[1]);
            assert("cancelled"@ != "completed"@);
            assert("cancelled"@ != "c"@);
        },
    }
}

/// The canonical name of every priority is ASCII and, read back, names that
/// priority.
pub(crate) proof fn lemma_priority_name(p: Priority)
    ensures
        all_ascii(priority_name(p)),
        ascii_lower(priority_name(p)) == priority_name(p),
        priority_from_lower(priority_name(p)) == Some(p),
{
    reveal_strlit("low");
    reveal_strlit("l");
    reveal_strlit("1");
    reveal_strlit("normal");
    reveal_strlit("n");
    reveal_strlit("2");
    reveal_strlit("high");
    reveal_strlit("h");
    reveal_strlit("3");
    reveal_strlit("urgent");
    reveal_strlit("u");
    reveal_strlit("4");
    reveal_strlit("critical");
    assert(ascii_lower(priority_name(p)) =~= priority_name(p));
    match p {
        Priority::Low => {},
        Priority::Normal => {
            assert("normal"@ != "low"@);
            assert("normal"@ != "l"@);
            assert("normal"@ != "1"@);
        },
        Priority::High => {
            assert("high"@ != "low"@);
            assert("high"@ != "l"@);
            assert("high"@ != "1"@);
            assert("high"@ != "normal"@);
            assert("high"@ != "n"@);
            assert("high"@ != "2"@);
        },
        Priority::Urgent => {
            assert("urgent"@ != "low"@);
            assert("urgent"@ != "l"@);
            assert("urgent"@ != "1"@);
            assert("urgent"@[0] != "normal"@[0]);
            assert("urgent"@ != "normal"@);
            assert("urgent"@ != "n"@);
            assert("urgent"@ != "2"@);
            assert("urgent"@ != "high"@);
            assert("urgent"@ != "h"@);
            assert("urgent"@ != "3"@);
        },
    }
}

/// Parsing the canonical name of a status (what `as_str` gives and what the
/// storage keeps) gives that status back.
pub proof fn law_status_name_round_trip(st: TaskStatus, r: Result<TaskStatus, Error>)
    requires
        parse_status_result(status_name(st), r),
    ensures
        r == Ok::<TaskStatus, Error>(st),
{
    lemma_status_name(st);
}

/// Parsing the canonical name of a priority (what `as_str` gives and what the
/// storage keeps) gives that priority back.
pub proof fn law_priority_name_round_trip(p: Priority, r: Result<Priority, Error>)
    requires
        parse_priority_result(priority_name(p), r),
    ensures
        r == Ok::<Priority, Error>(p),
{
    lemma_priority_name(p);
}

/// For ASCII text, parsing a status ignores case: two texts that agree up to
/// ASCII case give the same status, or are both refused.
pub proof fn law_status_parse_ignores_ascii_case(
    s1: Seq<char>,
    s2: Seq<char>,
    r1: Result<TaskStatus, Error>,
    r2: Result<TaskStatus, Error>,
)
    requires
        all_ascii(s1),
        all_ascii(s2),
        ascii_lower(s1) == ascii_lower(s2),
        parse_status_result(s1, r1),
        parse_status_result(s2, r2),
    ensures
        r1 is Ok <==> r2 is Ok,
        r1 is Ok ==> r1 == r2,
{
}

/// For ASCII text, parsing a priority ignores case: two texts that agree up
/// to ASCII case give the same priority, or are both refused.
pub proof fn law_priority_parse_ignores_ascii_case(
    s1: Seq<char>,
    s2: Seq<char>,
    r1: Result<Priority, Error>,
    r2: Result<Priority, Error>,
)
    requires
        all_ascii(s1),
        all_ascii(s2),
        ascii_lower(s1) == ascii_lower(s2),
        parse_priority_result(s1, r1),
        parse_priority_result(s2, r2),
    ensures
        r1 is Ok <==> r2 is Ok,
        r1 is Ok ==> r1 == r2,
{
}

/// The order of priorities is strict: low, normal, high, urgent.
pub proof fn law_priority_order_strict(a: Priority, b: Priority)
    ensures
        priority_rank(a) == priority_rank(b) <==> a == b,
        1 <= priority_rank(a) <= 4,
{
}

/// A finished task is never overdue, whatever the time.
pub proof fn law_finished_task_never_overdue(t: Task, now: int)
    requires
        t.status.is_completed_spec(),
    ensures
        !task_overdue(t, now),
{
}

/// A task is overdue exactly when it has a due date before `now` and is
/// not finished: one to do or in progress whose due date has passed is
/// overdue, one done or cancelled never is, and one without a due date
/// never is.
pub proof fn law_overdue_means_unfinished_and_past_due(t: Task, now: int)
    ensures
        task_overdue(t, now) <==> (t.due_date is Some && (t.due_date->0 as int) < now
            && t.status != TaskStatus::Done && t.status != TaskStatus::Cancelled),
        t.due_date matches Some(d) && (d as int) < now && t.status == TaskStatus::InProgress
            ==> task_overdue(t, now),
        t.due_date matches Some(d) && (d as int) < now && t.status == TaskStatus::Todo
            ==> task_overdue(t, now),
{
}

impl TaskStatus {
    /// Whether the status is finished (done or cancelled).
    pub open spec fn is_completed_spec(&self) -> bool {
        *self == TaskStatus::Done || *self == TaskStatus::Cancelled
    }
}

} // verus!
