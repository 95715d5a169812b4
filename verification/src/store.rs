//! What the storage writes for tasks, projects and reminders, and what it
//! makes of the columns it reads back.
//!
//! Points in time are stored as RFC 3339 text.  A text that cannot be read
//! back stands for the moment it is read.

use vstd::prelude::*;

use crate::clock::{
    format_rfc3339, four_digit_year, now_nanos, parse_rfc3339, rfc3339_nanos, rfc3339_text_of,
    valid_time,
};
use crate::project::Project;
use crate::reminder::{reminder_status_name, Reminder, ReminderStatus};
use crate::task::{
    priority_from_lower, priority_name, status_from_lower, status_name, valid_opt_time, Priority,
    Task, TaskStatus,
};
use crate::text::lower_text;

verus! {

// ---------------------------------------------------------------------------
// Points in time
// ---------------------------------------------------------------------------

/// The point in time a stored text stands for, read at `now`: the moment it
/// writes in RFC 3339 form, or `now` when it cannot be read.
pub open spec fn time_or(s: Seq<char>, now: int) -> int {
    match rfc3339_nanos(s) {
        Some(t) => t,
        None => now,
    }
}

/// The point in time a stored text stands for, read at `now`.
pub fn parse_datetime_at(s: &str, now: i128) -> (t: i128)
    requires
        valid_time(now as int),
    ensures
        t == time_or(s@, now as int),
        valid_time(t as int),
{
    match parse_rfc3339(s) {
        Some(t) => t,
        None => now,
    }
}

/// The point in time a stored text stands for: the moment it writes, or
/// the current time when it cannot be read.
pub fn parse_datetime(s: &str) -> (t: i128)
    ensures
        valid_time(t as int),
        rfc3339_nanos(s@) matches Some(x) ==> t == x,
{
    match parse_rfc3339(s) {
        Some(t) => t,
        None => now_nanos(),
    }
}

/// The view of an optional string.
pub open spec fn opt_str(o: Option<String>) -> Option<Seq<char>> {
    match o {
        Some(s) => Some(s@),
        None => None,
    }
}

/// The stored text of an optional point in time.
pub open spec fn opt_time_text(t: Option<i128>) -> Option<Seq<char>> {
    match t {
        Some(v) => Some(rfc3339_text_of(v as int)),
        None => None,
    }
}

/// The point in time an optional stored text stands for, read at `now`.
pub open spec fn opt_time_or(s: Option<String>, now: int) -> Option<i128> {
    match s {
        Some(v) => Some(time_or(v@, now) as i128),
        None => None,
    }
}

/// Whether an optional point in time has a four-digit year.
pub open spec fn opt_four_digit_year(t: Option<i128>) -> bool {
    match t {
        Some(v) => four_digit_year(v as int),
        None => true,
    }
}

fn copy_opt_string(o: &Option<String>) -> (r: Option<String>)
    ensures
        r == *o,
{
    match o {
        Some(s) => Some(s.clone()),
        None => None,
    }
}

fn time_text(t: i128) -> (r: String)
    requires
        valid_time(t as int),
    ensures
        r@ == rfc3339_text_of(t as int),
        four_digit_year(t as int) ==> rfc3339_nanos(r@) == Some(t as int),
{
    format_rfc3339(t)
}

fn opt_time_string(t: Option<i128>) -> (r: Option<String>)
    requires
        valid_opt_time(t),
    ensures
        opt_str(r) == opt_time_text(t),
        opt_four_digit_year(t) ==> forall|now: int| #[trigger] opt_time_or(r, now) == t,
{
    match t {
        Some(v) => Some(time_text(v)),
        None => None,
    }
}

fn opt_time_at(s: &Option<String>, now: i128) -> (r: Option<i128>)
    requires
        valid_time(now as int),
    ensures
        r == opt_time_or(*s, now as int),
        valid_opt_time(r),
{
    match s {
        Some(v) => Some(parse_datetime_at(v.as_str(), now)),
        None => None,
    }
}

// ---------------------------------------------------------------------------
// Tasks
// ---------------------------------------------------------------------------

/// The columns of a stored task.  Read back, a column is `None` where it
/// could not be read (a missing value, or one of another type).
#[derive(Debug)]
pub struct TaskRecord {
    pub id: Option<i32>,
    pub project_id: Option<String>,
    pub title: Option<String>,
    pub description: Option<String>,
    pub status: Option<String>,
    pub priority: Option<String>,
    pub due_date: Option<String>,
    pub created_at: Option<String>,
    pub updated_at: Option<String>,
    pub completed_at: Option<String>,
}

/// The columns written for the task `t`: its status and priority by their
/// canonical names, its points in time as RFC 3339 text.
pub open spec fn task_written(t: Task, rec: TaskRecord) -> bool {
    &&& rec.id == Some(t.id)
    &&& opt_str(rec.project_id) == Some(t.project_id@)
    &&& opt_str(rec.title) == Some(t.title@)
    &&& opt_str(rec.description) == opt_str(t.description)
    &&& opt_str(rec.status) == Some(status_name(t.status))
    &&& opt_str(rec.priority) == Some(priority_name(t.priority))
    &&& opt_str(rec.due_date) == opt_time_text(t.due_date)
    &&& opt_str(rec.created_at) == Some(rfc3339_text_of(t.created_at as int))
    &&& opt_str(rec.updated_at) == Some(rfc3339_text_of(t.updated_at as int))
    &&& opt_str(rec.completed_at) == opt_time_text(t.completed_at)
}

/// The status a stored text names (any case), or `todo`.
pub open spec fn stored_status(s: Option<String>) -> TaskStatus {
    match s {
        Some(v) => match status_from_lower(lower_text(v@)) {
            Some(st) => st,
            None => TaskStatus::Todo,
        },
        None => TaskStatus::Todo,
    }
}

/// The priority a stored text names (any case), or `normal`.
pub open spec fn stored_priority(s: Option<String>) -> Priority {
    match s {
        Some(v) => match priority_from_lower(lower_text(v@)) {
            Some(p) => p,
            None => Priority::Normal,
        },
        None => Priority::Normal,
    }
}

/// The task read at `now` from the columns `rec`: a column that could not
/// be read gives id 0, an empty text, no description, status `todo`,
/// priority `normal`, no due or completion date, or `now`.
pub open spec fn task_read(rec: TaskRecord, now: int, t: Task) -> bool {
    &&& t.id == match rec.id {
        Some(i) => i,
        None => 0,
    }
    &&& t.project_id@ == match rec.project_id {
        Some(s) => s@,
        None => Seq::<char>::empty(),
    }
    &&& t.title@ == match rec.title {
        Some(s) => s@,
        None => Seq::<char>::empty(),
    }
    &&& opt_str(t.description) == opt_str(rec.description)
    &&& t.status == stored_status(rec.status)
    &&& t.priority == stored_priority(rec.priority)
    &&& t.due_date == opt_time_or(rec.due_date, now)
    &&& t.created_at == match rec.created_at {
        Some(s) => time_or(s@, now),
        None => now,
    }
    &&& t.updated_at == match rec.updated_at {
        Some(s) => time_or(s@, now),
        None => now,
    }
    &&& t.completed_at == opt_time_or(rec.completed_at, now)
}

/// Whether two tasks hold the same values.
pub open spec fn same_task(a: Task, b: Task) -> bool {
    &&& a.id == b.id
    &&& a.project_id@ == b.project_id@
    &&& a.title@ == b.title@
    &&& opt_str(a.description) == opt_str(b.description)
    &&& a.status == b.status
    &&& a.priority == b.priority
    &&& a.due_date == b.due_date
    &&& a.created_at == b.created_at
    &&& a.updated_at == b.updated_at
    &&& a.completed_at == b.completed_at
}

/// Whether every point in time of a task has a four-digit year.
pub open spec fn task_four_digit_years(t: Task) -> bool {
    &&& opt_four_digit_year(t.due_date)
    &&& four_digit_year(t.created_at as int)
    &&& four_digit_year(t.updated_at as int)
    &&& opt_four_digit_year(t.completed_at)
}

/// The columns the storage writes for a task.  Where every point in time
/// of the task has a four-digit year, reading them back, at any moment,
/// gives the task again.
pub fn record_of_task(t: &Task) -> (rec: TaskRecord)
    requires
        t.wf(),
    ensures
        task_written(*t, rec),
        task_four_digit_years(*t) ==> forall|now: int, back: Task|
            #[trigger] task_read(rec, now, back) ==> same_task(back, *t),
{
    let rec = TaskRecord {
        id: Some(t.id),
        project_id: Some(t.project_id.clone()),
        title: Some(t.title.clone()),
        description: copy_opt_string(&t.description),
        status: Some(t.status.to_string()),
        priority: Some(t.priority.to_string()),
        due_date: opt_time_string(t.due_date),
        created_at: Some(time_text(t.created_at)),
        updated_at: Some(time_text(t.updated_at)),
        completed_at: opt_time_string(t.completed_at),
    };
    proof {
        crate::task::lemma_status_name(t.status);
        crate::task::lemma_priority_name(t.priority);
    }
    rec
}

/// The columns that changing a task's status at `now` writes: the status's
/// name, the time of the change and, for `done` only, the completion time
/// (the completion time is cleared otherwise).
pub fn status_change_record(status: TaskStatus, now: i128) -> (r: (String, String, Option<String>))
    requires
        valid_time(now as int),
    ensures
        r.0@ == status_name(status),
        r.1@ == rfc3339_text_of(now as int),
        opt_str(r.2) == if status == TaskStatus::Done {
            Some(rfc3339_text_of(now as int))
        } else {
            None
        },
{
    let completed = if status == TaskStatus::Done {
        Some(time_text(now))
    } else {
        None
    };
    (status.to_string(), time_text(now), completed)
}

fn string_or_empty(o: &Option<String>) -> (r: String)
    ensures
        r@ == match *o {
            Some(s) => s@,
            None => Seq::<char>::empty(),
        },
{
    match o {
        Some(s) => s.clone(),
        None => String::new(),
    }
}

/// The task read at `now` from stored columns (see `task_read`).
pub fn task_from_record_at(rec: &TaskRecord, now: i128) -> (t: Task)
    requires
        valid_time(now as int),
    ensures
        task_read(*rec, now as int, t),
        t.wf(),
{
    let status = match &rec.status {
        Some(s) => match TaskStatus::parse(s.as_str()) {
            Ok(st) => st,
            Err(_) => TaskStatus::Todo,
        },
        None => TaskStatus::Todo,
    };
    let priority = match &rec.priority {
        Some(s) => match Priority::parse(s.as_str()) {
            Ok(p) => p,
            Err(_) => Priority::Normal,
        },
        None => Priority::Normal,
    };
    let created_at = match &rec.created_at {
        Some(s) => parse_datetime_at(s.as_str(), now),
        None => now,
    };
    let updated_at = match &rec.updated_at {
        Some(s) => parse_datetime_at(s.as_str(), now),
        None => now,
    };
    Task {
        id: match rec.id {
            Some(i) => i,
            None => 0,
        },
        project_id: string_or_empty(&rec.project_id),
        title: string_or_empty(&rec.title),
        description: copy_opt_string(&rec.description),
        status,
        priority,
        due_date: opt_time_at(&rec.due_date, now),
        created_at,
        updated_at,
        completed_at: opt_time_at(&rec.completed_at, now),
    }
}

/// The task read from stored columns, a column that cannot be read standing
/// for the current time.
pub fn task_from_record(rec: &TaskRecord) -> (t: Task)
    ensures
        exists|now: int| valid_time(now) && #[trigger] task_read(*rec, now, t),
        t.wf(),
{
    let now = now_nanos();
    task_from_record_at(rec, now)
}

// ---------------------------------------------------------------------------
// Projects
// ---------------------------------------------------------------------------

/// The columns of a stored project.  Read back, a column is `None` where it
/// could not be read; the description is `Some(None)` where it is missing.
#[derive(Debug)]
pub struct ProjectRecord {
    pub id: Option<String>,
    pub name: Option<String>,
    pub description: Option<Option<String>>,
    pub created_at: Option<String>,
    pub updated_at: Option<String>,
}

/// The columns written for the project `p`.
pub open spec fn project_written(p: Project, rec: ProjectRecord) -> bool {
    &&& opt_str(rec.id) == Some(p.id@)
    &&& opt_str(rec.name) == Some(p.name@)
    &&& rec.description is Some && opt_str(rec.description->0) == opt_str(p.description)
    &&& opt_str(rec.created_at) == Some(rfc3339_text_of(p.created_at as int))
    &&& opt_str(rec.updated_at) == Some(rfc3339_text_of(p.updated_at as int))
}

/// Whether a project is read at `now` from the columns `rec`: a project
/// is read only when every column could be read.
pub open spec fn project_read(rec: ProjectRecord, now: int, r: Option<Project>) -> bool {
    if rec.id is Some && rec.name is Some && rec.description is Some && rec.created_at is Some
        && rec.updated_at is Some {
        &&& r is Some
        &&& r->0.id@ == rec.id->0@
        &&& r->0.name@ == rec.name->0@
        &&& opt_str(r->0.description) == opt_str(rec.description->0)
        &&& r->0.created_at == time_or(rec.created_at->0@, now)
        &&& r->0.updated_at == time_or(rec.updated_at->0@, now)
    } else {
        r is None
    }
}

/// The columns the storage writes for a project.  Where its points in time
/// have four-digit years, reading them back gives the project again.
pub fn record_of_project(p: &Project) -> (rec: ProjectRecord)
    requires
        p.wf(),
    ensures
        project_written(*p, rec),
        four_digit_year(p.created_at as int) && four_digit_year(p.updated_at as int) ==> forall|
            now: int,
            back: Option<Project>,
        |
            #[trigger] project_read(rec, now, back) ==> back is Some && back->0.id@ == p.id@
                && back->0.name@ == p.name@ && opt_str(back->0.description) == opt_str(
                p.description,
            ) && back->0.created_at == p.created_at && back->0.updated_at == p.updated_at,
{
    let created = time_text(p.created_at);
    let updated = time_text(p.updated_at);
    let rec = ProjectRecord {
        id: Some(p.id.clone()),
        name: Some(p.name.clone()),
        description: Some(copy_opt_string(&p.description)),
        created_at: Some(created),
        updated_at: Some(updated),
    };
    rec
}

/// The project read at `now` from stored columns (see `project_read`).
pub fn project_from_record_at(rec: &ProjectRecord, now: i128) -> (r: Option<Project>)
    requires
        valid_time(now as int),
    ensures
        project_read(*rec, now as int, r),
        r matches Some(p) ==> p.wf(),
{
    match (&rec.id, &rec.name, &rec.description, &rec.created_at, &rec.updated_at) {
        (Some(id), Some(name), Some(description), Some(created), Some(updated)) => Some(
            Project {
                id: id.clone(),
                name: name.clone(),
                description: copy_opt_string(description),
                created_at: parse_datetime_at(created.as_str(), now),
                updated_at: parse_datetime_at(updated.as_str(), now),
            },
        ),
        _ => None,
    }
}

/// The project read from stored columns, a point in time that cannot be
/// read standing for the current time.
pub fn project_from_record(rec: &ProjectRecord) -> (r: Option<Project>)
    ensures
        exists|now: int| valid_time(now) && #[trigger] project_read(*rec, now, r),
        r matches Some(p) ==> p.wf(),
{
    let now = now_nanos();
    project_from_record_at(rec, now)
}

// ---------------------------------------------------------------------------
// Reminders
// ---------------------------------------------------------------------------

/// The columns of a stored reminder.  Read back, a column is `None` where
/// it could not be read; the project and task are `Some(None)` where they
/// are missing.
#[derive(Debug)]
pub struct ReminderRecord {
    pub id: Option<i32>,
    pub message: Option<String>,
    pub project_id: Option<Option<String>>,
    pub task_id: Option<Option<i32>>,
    pub remind_at: Option<String>,
    pub status: Option<String>,
    pub created_at: Option<String>,
}

/// The columns written for the reminder `r`.
pub open spec fn reminder_written(r: Reminder, rec: ReminderRecord) -> bool {
    &&& rec.id == Some(r.id)
    &&& opt_str(rec.message) == Some(r.message@)
    &&& rec.project_id is Some && opt_str(rec.project_id->0) == opt_str(r.project_id)
    &&& rec.task_id == Some(r.task_id)
    &&& opt_str(rec.remind_at) == Some(rfc3339_text_of(r.remind_at as int))
    &&& opt_str(rec.status) == Some(reminder_status_name(r.status))
    &&& opt_str(rec.created_at) == Some(rfc3339_text_of(r.created_at as int))
}

/// Whether a pending reminder is read at `now` from the columns `rec`
/// (only pending reminders are listed, so the status is not read): a
/// reminder is read only when every column it needs could be read.
pub open spec fn reminder_read(rec: ReminderRecord, now: int, r: Option<Reminder>) -> bool {
    if rec.id is Some && rec.message is Some && rec.project_id is Some && rec.task_id is Some
        && rec.remind_at is Some && rec.created_at is Some {
        &&& r is Some
        &&& r->0.id == rec.id->0
        &&& r->0.message@ == rec.message->0@
        &&& opt_str(r->0.project_id) == opt_str(rec.project_id->0)
        &&& r->0.task_id == rec.task_id->0
        &&& r->0.remind_at == time_or(rec.remind_at->0@, now)
        &&& r->0.status == ReminderStatus::Pending
        &&& r->0.created_at == time_or(rec.created_at->0@, now)
    } else {
        r is None
    }
}

/// The columns the storage writes for a reminder.  Where its points in
/// time have four-digit years and it is pending, reading them back gives
/// the reminder again.
pub fn record_of_reminder(r: &Reminder) -> (rec: ReminderRecord)
    requires
        r.wf(),
    ensures
        reminder_written(*r, rec),
        four_digit_year(r.remind_at as int) && four_digit_year(r.created_at as int) && r.status
            == ReminderStatus::Pending ==> forall|now: int, back: Option<Reminder>|
            #[trigger] reminder_read(rec, now, back) ==> back is Some && back->0.id == r.id
                && back->0.message@ == r.message@ && opt_str(back->0.project_id) == opt_str(
                r.project_id,
            ) && back->0.task_id == r.task_id && back->0.remind_at == r.remind_at
                && back->0.status == r.status && back->0.created_at == r.created_at,
{
    let remind = time_text(r.remind_at);
    let created = time_text(r.created_at);
    let rec = ReminderRecord {
        id: Some(r.id),
        message: Some(r.message.clone()),
        project_id: Some(copy_opt_string(&r.project_id)),
        task_id: Some(r.task_id),
        remind_at: Some(remind),
        status: Some(r.status.to_string()),
        created_at: Some(created),
    };
    rec
}

/// The pending reminder read at `now` from stored columns (see
/// `reminder_read`).
pub fn reminder_from_record_at(rec: &ReminderRecord, now: i128) -> (r: Option<Reminder>)
    requires
        valid_time(now as int),
    ensures
        reminder_read(*rec, now as int, r),
        r matches Some(x) ==> x.wf(),
{
    match (&rec.id, &rec.message, &rec.project_id, &rec.task_id, &rec.remind_at, &rec.created_at) {
        (Some(id), Some(message), Some(project_id), Some(task_id), Some(remind), Some(created)) => {
            Some(
                Reminder {
                    id: *id,
                    message: message.clone(),
                    project_id: copy_opt_string(project_id),
                    task_id: *task_id,
                    remind_at: parse_datetime_at(remind.as_str(), now),
                    status: ReminderStatus::Pending,
                    created_at: parse_datetime_at(created.as_str(), now),
                },
            )
        },
        _ => None,
    }
}

/// The pending reminder read from stored columns, a point in time that
/// cannot be read standing for the current time.
pub fn reminder_from_record(rec: &ReminderRecord) -> (r: Option<Reminder>)
    ensures
        exists|now: int| valid_time(now) && #[trigger] reminder_read(*rec, now, r),
        r matches Some(x) ==> x.wf(),
{
    let now = now_nanos();
    reminder_from_record_at(rec, now)
}

} // verus!
