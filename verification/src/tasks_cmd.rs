//! The decisions behind the task commands: reading due dates, building a
//! new task, and what an action on a task does.

use vstd::prelude::*;

use crate::clock::{end_of_day, end_of_day_nanos, parse_ymd, valid_time, ymd_day_ce, MAX_NANOS, NANOS_PER_DAY};
use crate::error::{join2, Error};
use crate::task::{
    parse_priority_result, priority_from_lower, priority_name, Priority, Task, TaskStatus,
};
use crate::text::{decimal, decimal_string, has_prefix, lower_text, str_eq, string_from, to_lowercase};

verus! {

/// The message given when a due date cannot be read.
pub open spec fn invalid_date_message(s: Seq<char>) -> Seq<char> {
    "Invalid date format: "@ + s + ". Use: today, tomorrow, week, or YYYY-MM-DD"@
}

/// When a task given the due date `s` at `now` is due: `today` is now,
/// `tomorrow` a day later, `week` (or `nextweek`) seven days later, and a
/// date `YYYY-MM-DD` its last second; otherwise the message of the error.
pub open spec fn due_date_of(s: Seq<char>, now: int) -> Result<int, Seq<char>> {
    let l = lower_text(s);
    if l == "today"@ {
        Ok(now)
    } else if l == "tomorrow"@ {
        Ok(now + NANOS_PER_DAY)
    } else if l == "week"@ || l == "nextweek"@ {
        Ok(now + 7 * NANOS_PER_DAY)
    } else {
        match ymd_day_ce(s) {
            Some(d) => Ok(end_of_day(d)),
            None => Err(invalid_date_message(s)),
        }
    }
}

/// Whether reading the due date `s` at `now` runs past the end of the
/// calendar (the moment a day or a week ahead does not exist).
pub open spec fn due_date_faults(s: Seq<char>, now: int) -> bool {
    let l = lower_text(s);
    ||| (l == "tomorrow"@ && now + NANOS_PER_DAY > MAX_NANOS)
    ||| ((l == "week"@ || l == "nextweek"@) && now + 7 * NANOS_PER_DAY > MAX_NANOS)
}

/// Reads a due date: `today`, `tomorrow`, `week`, `nextweek` (in any case)
/// or a date `YYYY-MM-DD`, which stands for its last second (UTC).
pub fn parse_due_date(s: &str, now: i128) -> (r: Result<i128, Error>)
    requires
        valid_time(now as int),
        !due_date_faults(s@, now as int),
    ensures
        match due_date_of(s@, now as int) {
            Ok(t) => r == Ok::<i128, Error>(t as i128) && valid_time(t),
            Err(m) => r is Err && r->Err_0 is Other && r->Err_0->Other_0@ == m,
        },
{
    let lower = to_lowercase(s);
    let l = lower.as_str();
    if str_eq(l, "today") {
        Ok(now)
    } else if str_eq(l, "tomorrow") {
        Ok(now + NANOS_PER_DAY)
    } else if str_eq(l, "week") || str_eq(l, "nextweek") {
        Ok(now + 7 * NANOS_PER_DAY)
    } else {
        match parse_ymd(s) {
            Some(d) => Ok(end_of_day_nanos(d)),
            None => {
                let mut m = join2("Invalid date format: ", s);
                m.append(". Use: today, tomorrow, week, or YYYY-MM-DD");
                Err(Error::Other(m))
            },
        }
    }
}

/// Whether reading the due date `s` at `now` runs past the end of the
/// calendar.
pub fn due_date_faults_exec(s: &str, now: i128) -> (r: bool)
    requires
        valid_time(now as int),
    ensures
        r == due_date_faults(s@, now as int),
{
    let lower = to_lowercase(s);
    let l = lower.as_str();
    (str_eq(l, "tomorrow") && now > MAX_NANOS - NANOS_PER_DAY) || ((str_eq(l, "week")
        || str_eq(l, "nextweek")) && now > MAX_NANOS - 7 * NANOS_PER_DAY)
}

/// The priority that a text names, ignoring case.
pub open spec fn priority_of_text(s: Seq<char>) -> Option<Priority> {
    priority_from_lower(lower_text(s))
}

/// What adding a task gives: the task to store, or the error.  The
/// priority is read first, then the due date.
pub open spec fn new_task_ok(
    t: Task,
    project_id: Seq<char>,
    title: Seq<char>,
    description: Option<Seq<char>>,
    priority: Option<Seq<char>>,
    due: Option<Seq<char>>,
    now: int,
) -> bool {
    &&& t.id == 0
    &&& t.project_id@ == project_id
    &&& t.title@ == title
    &&& match description {
        Some(d) => t.description is Some && t.description->0@ == d,
        None => t.description is None,
    }
    &&& t.status == TaskStatus::Todo
    &&& t.priority == match priority {
        Some(p) => priority_of_text(p)->0,
        None => Priority::Normal,
    }
    &&& t.due_date == match due {
        Some(d) => Some(due_date_of(d, now)->Ok_0 as i128),
        None => None::<i128>,
    }
    &&& t.created_at == now
    &&& t.updated_at == now
    &&& t.completed_at is None
}

/// The view of an optional text.
pub open spec fn opt_view(o: Option<&str>) -> Option<Seq<char>> {
    match o {
        Some(s) => Some(s@),
        None => None,
    }
}

/// The task that `add` stores: a new task of the project, created at `now`,
/// with the given description, priority (normal when none is given) and due
/// date.
pub fn new_task(
    project_id: &str,
    title: &str,
    description: Option<&str>,
    priority: Option<&str>,
    due: Option<&str>,
    now: i128,
) -> (r: Result<Task, Error>)
    requires
        valid_time(now as int),
        due matches Some(d) ==> !due_date_faults(d@, now as int),
    ensures
        r is Ok <==> (priority matches Some(p) ==> priority_of_text(p@) is Some) && (
        due matches Some(d) ==> due_date_of(d@, now as int) is Ok),
        r matches Ok(t) ==> t.wf() && new_task_ok(
            t,
            project_id@,
            title@,
            opt_view(description),
            opt_view(priority),
            opt_view(due),
            now as int,
        ),
        r matches Err(e) ==> match priority {
            Some(p) if priority_of_text(p@) is None => e is InvalidPriority
                && e->InvalidPriority_0@ == p@,
            _ => e is Other && e->Other_0@ == due_date_of(due->0@, now as int)->Err_0,
        },
{
    let mut task = Task::new_at(project_id, title, now);
    if let Some(d) = description {
        task.description = Some(string_from(d));
    }
    if let Some(p) = priority {
        match Priority::parse(p) {
            Ok(pr) => {
                task.priority = pr;
            },
            Err(e) => {
                return Err(e);
            },
        }
    }
    if let Some(d) = due {
        match parse_due_date(d, now) {
            Ok(t) => {
                task.due_date = Some(t);
            },
            Err(e) => {
                return Err(e);
            },
        }
    }
    Ok(task)
}

/// The task that `add` stores, as `new_task` gives it, after testing that
/// the due date does not run past the end of the calendar; `None` when it
/// does.
pub fn new_task_checked(
    project_id: &str,
    title: &str,
    description: Option<&str>,
    priority: Option<&str>,
    due: Option<&str>,
    now: i128,
) -> (r: Option<Result<Task, Error>>)
    requires
        valid_time(now as int),
    ensures
        r is None <==> (due matches Some(d) && due_date_faults(d@, now as int)),
        r matches Some(res) ==> (res is Ok <==> (priority matches Some(p) ==> priority_of_text(
            p@,
        ) is Some) && (due matches Some(d) ==> due_date_of(d@, now as int) is Ok)),
        r matches Some(Ok(t)) ==> t.wf() && new_task_ok(
            t,
            project_id@,
            title@,
            opt_view(description),
            opt_view(priority),
            opt_view(due),
            now as int,
        ),
        r matches Some(Err(e)) ==> match priority {
            Some(p) if priority_of_text(p@) is None => e is InvalidPriority
                && e->InvalidPriority_0@ == p@,
            _ => e is Other && e->Other_0@ == due_date_of(due->0@, now as int)->Err_0,
        },
{
    if let Some(d) = due {
        if due_date_faults_exec(d, now) {
            return None;
        }
    }
    Some(new_task(project_id, title, description, priority, due, now))
}

/// The tag shown after a new task's title: its priority in capitals between
/// brackets.
pub open spec fn priority_tag_text(p: Priority) -> Seq<char> {
    match p {
        Priority::Low => "[LOW]"@,
        Priority::Normal => "[NORMAL]"@,
        Priority::High => "[HIGH]"@,
        Priority::Urgent => "[URGENT]"@,
    }
}

/// The tag shown after a new task's title, such as `[HIGH]`.
pub fn priority_tag(p: Priority) -> (r: String)
    ensures
        r@ == priority_tag_text(p),
{
    match p {
        Priority::Low => string_from("[LOW]"),
        Priority::Normal => string_from("[NORMAL]"),
        Priority::High => string_from("[HIGH]"),
        Priority::Urgent => string_from("[URGENT]"),
    }
}

/// What an action on a task amounts to.
#[derive(Debug, Clone)]
pub enum TaskAction {
    /// Show the task's details.
    Show,
    /// Mark the task done.
    Complete,
    /// Mark the task in progress.
    Start,
    /// Put the task back to do.
    Stop,
    /// Delete the task.
    Delete,
    /// Store the task with its new priority.
    SetPriority(Task),
    /// Store the task with its new due date.
    SetDue(Task),
    /// Store the task with its new description.
    SetDescription(Task),
    /// Store the task with its new title.
    SetTitle(Task),
}

/// The kinds of action words.
pub enum ActionKind {
    Complete,
    Start,
    Stop,
    Delete,
    Priority,
    Due,
    Description,
    Title,
    Unknown,
}

/// The kind of an action word (case matters).
pub open spec fn action_kind(a: Seq<char>) -> ActionKind {
    if a == "done"@ || a == "complete"@ || a == "d"@ || a == "c"@ {
        ActionKind::Complete
    } else if a == "start"@ || a == "s"@ {
        ActionKind::Start
    } else if a == "stop"@ {
        ActionKind::Stop
    } else if a == "delete"@ || a == "del"@ || a == "rm"@ {
        ActionKind::Delete
    } else if a == "priority"@ || a == "p"@ {
        ActionKind::Priority
    } else if a == "due"@ {
        ActionKind::Due
    } else if a == "description"@ || a == "desc"@ || a == "note"@ {
        ActionKind::Description
    } else if a == "edit"@ || a == "title"@ {
        ActionKind::Title
    } else {
        ActionKind::Unknown
    }
}

/// The usage line given when an action that needs a value has none.
pub open spec fn usage_message(id: i32, k: ActionKind) -> Seq<char> {
    let pre = "Usage: pcli task "@ + decimal(id as int);
    match k {
        ActionKind::Priority => pre + " priority <low|normal|high|urgent>"@,
        ActionKind::Due => pre + " due <today|tomorrow|week|YYYY-MM-DD>"@,
        ActionKind::Description => pre + " description <text>"@,
        _ => pre + " edit <new title>"@,
    }
}

/// The message given for an unknown action word.
pub open spec fn unknown_action_message(a: Seq<char>) -> Seq<char> {
    "Unknown action: "@ + a + ". Use: done, start, stop, delete, priority"@
}

/// Whether applying the action `action` with value `value` to the task `t`
/// at `now` runs past the end of the calendar.
pub open spec fn action_faults(action: Option<Seq<char>>, value: Option<Seq<char>>, now: int) -> bool {
    &&& action is Some
    &&& action_kind(action->0) matches ActionKind::Due
    &&& value is Some
    &&& due_date_faults(value->0, now)
}

/// Whether `r` is what the action `action` with value `value` on the task
/// `t` (whose id is `id`) gives at `now`.
pub open spec fn action_outcome(
    t: Task,
    id: i32,
    action: Option<Seq<char>>,
    value: Option<Seq<char>>,
    now: int,
    r: Result<TaskAction, Error>,
) -> bool {
    match action {
        None => r matches Ok(TaskAction::Show),
        Some(a) => match action_kind(a) {
            ActionKind::Complete => r matches Ok(TaskAction::Complete),
            ActionKind::Start => r matches Ok(TaskAction::Start),
            ActionKind::Stop => r matches Ok(TaskAction::Stop),
            ActionKind::Delete => r matches Ok(TaskAction::Delete),
            ActionKind::Unknown => r is Err && r->Err_0 is Other && r->Err_0->Other_0@
                == unknown_action_message(a),
            k => match value {
                None => r is Err && r->Err_0 is Other && r->Err_0->Other_0@ == usage_message(id, k),
                Some(v) => match k {
                    ActionKind::Priority => match priority_of_text(v) {
                        Some(p) => r matches Ok(TaskAction::SetPriority(n)) && n == (Task {
                            priority: p,
                            updated_at: now as i128,
                            ..t
                        }),
                        None => r is Err && r->Err_0 is InvalidPriority
                            && r->Err_0->InvalidPriority_0@ == v,
                    },
                    ActionKind::Due => match due_date_of(v, now) {
                        Ok(d) => r matches Ok(TaskAction::SetDue(n)) && n == (Task {
                            due_date: Some(d as i128),
                            updated_at: now as i128,
                            ..t
                        }),
                        Err(m) => r is Err && r->Err_0 is Other && r->Err_0->Other_0@ == m,
                    },
                    ActionKind::Description => r matches Ok(TaskAction::SetDescription(n))
                        && n.description is Some && n.description->0@ == v && n == (Task {
                        description: n.description,
                        updated_at: now as i128,
                        ..t
                    }),
                    _ => r matches Ok(TaskAction::SetTitle(n)) && n.title@ == v && n == (Task {
                        title: n.title,
                        updated_at: now as i128,
                        ..t
                    }),
                },
            },
        },
    }
}

/// The usage line of an action that needs a value.
fn usage(id: i32, tail: &str) -> (r: String)
    ensures
        r@ == "Usage: pcli task "@ + decimal(id as int) + tail@,
{
    let n = decimal_string(id as i64);
    let mut r = join2("Usage: pcli task ", n.as_str());
    r.append(tail);
    r
}

/// What the action `action` (with its value) on the task `task`, whose id
/// is `id`, amounts to at `now`: showing it when there is no action, a
/// change of status, a deletion, or the task with a new priority, due date,
/// description or title (changed at `now`); or the error to report.
pub fn plan_task_action(
    task: Task,
    id: i32,
    action: Option<&str>,
    value: Option<&str>,
    now: i128,
) -> (r: Result<TaskAction, Error>)
    requires
        valid_time(now as int),
        !action_faults(opt_view(action), opt_view(value), now as int),
    ensures
        action_outcome(task, id, opt_view(action), opt_view(value), now as int, r),
{
    let a = match action {
        None => {
            return Ok(TaskAction::Show);
        },
        Some(a) => a,
    };
    if str_eq(a, "done") || str_eq(a, "complete") || str_eq(a, "d") || str_eq(a, "c") {
        Ok(TaskAction::Complete)
    } else if str_eq(a, "start") || str_eq(a, "s") {
        Ok(TaskAction::Start)
    } else if str_eq(a, "stop") {
        Ok(TaskAction::Stop)
    } else if str_eq(a, "delete") || str_eq(a, "del") || str_eq(a, "rm") {
        Ok(TaskAction::Delete)
    } else if str_eq(a, "priority") || str_eq(a, "p") {
        match value {
            None => Err(Error::Other(usage(id, " priority <low|normal|high|urgent>"))),
            Some(v) => match Priority::parse(v) {
                Ok(p) => {
                    let mut t = task;
                    t.priority = p;
                    t.updated_at = now;
                    Ok(TaskAction::SetPriority(t))
                },
                Err(e) => Err(e),
            },
        }
    } else if str_eq(a, "due") {
        match value {
            None => Err(Error::Other(usage(id, " due <today|tomorrow|week|YYYY-MM-DD>"))),
            Some(v) => match parse_due_date(v, now) {
                Ok(d) => {
                    let mut t = task;
                    t.due_date = Some(d);
                    t.updated_at = now;
                    Ok(TaskAction::SetDue(t))
                },
                Err(e) => Err(e),
            },
        }
    } else if str_eq(a, "description") || str_eq(a, "desc") || str_eq(a, "note") {
        match value {
            None => Err(Error::Other(usage(id, " description <text>"))),
            Some(v) => {
                let mut t = task;
                t.description = Some(string_from(v));
                t.updated_at = now;
                Ok(TaskAction::SetDescription(t))
            },
        }
    } else if str_eq(a, "edit") || str_eq(a, "title") {
        match value {
            None => Err(Error::Other(usage(id, " edit <new title>"))),
            Some(v) => {
                let mut t = task;
                t.title = string_from(v);
                t.updated_at = now;
                Ok(TaskAction::SetTitle(t))
            },
        }
    } else {
        let mut m = join2("Unknown action: ", a);
        m.append(". Use: done, start, stop, delete, priority");
        Err(Error::Other(m))
    }
}

/// What the action on the task amounts to, as `plan_task_action` gives it,
/// after testing that a new due date does not run past the end of the
/// calendar; `None` when it does.
pub fn plan_task_action_checked(
    task: Task,
    id: i32,
    action: Option<&str>,
    value: Option<&str>,
    now: i128,
) -> (r: Option<Result<TaskAction, Error>>)
    requires
        valid_time(now as int),
    ensures
        r is None <==> action_faults(opt_view(action), opt_view(value), now as int),
        r matches Some(res) ==> action_outcome(
            task,
            id,
            opt_view(action),
            opt_view(value),
            now as int,
            res,
        ),
{
    if action_faults_exec(action, value, now) {
        return None;
    }
    Some(plan_task_action(task, id, action, value, now))
}

/// Whether applying an action would run past the end of the calendar.
pub fn action_faults_exec(action: Option<&str>, value: Option<&str>, now: i128) -> (r: bool)
    requires
        valid_time(now as int),
    ensures
        r == action_faults(opt_view(action), opt_view(value), now as int),
{
    match (action, value) {
        (Some(a), Some(v)) => {
            if str_eq(a, "done") || str_eq(a, "complete") || str_eq(a, "d") || str_eq(a, "c")
                || str_eq(a, "start") || str_eq(a, "s") || str_eq(a, "stop") || str_eq(
                a,
                "delete",
            ) || str_eq(a, "del") || str_eq(a, "rm") || str_eq(a, "priority") || str_eq(
                a,
                "p",
            ) {
                false
            } else if str_eq(a, "due") {
                due_date_faults_exec(v, now)
            } else {
                false
            }
        },
        _ => false,
    }
}

/// The status that an action changing the status sets.
pub open spec fn action_status(a: TaskAction) -> Option<TaskStatus> {
    match a {
        TaskAction::Complete => Some(TaskStatus::Done),
        TaskAction::Start => Some(TaskStatus::InProgress),
        TaskAction::Stop => Some(TaskStatus::Todo),
        _ => None,
    }
}

/// The words that change a task's status or delete it do so whatever the
/// task, its id, the value given and the time: `done`, `complete`, `d` and
/// `c` mark it done, `start` and `s` start it, `stop` puts it back to do,
/// and `delete`, `del` and `rm` delete it.
pub proof fn law_status_words_act(
    t: Task,
    id: i32,
    a: Seq<char>,
    value: Option<Seq<char>>,
    now: int,
    r: Result<TaskAction, Error>,
)
    requires
        action_outcome(t, id, Some(a), value, now, r),
    ensures
        (a == "done"@ || a == "complete"@ || a == "d"@ || a == "c"@) ==> (r matches Ok(x)
            && x is Complete && action_status(x) == Some(TaskStatus::Done)),
        (a == "start"@ || a == "s"@) ==> (r matches Ok(x) && x is Start && action_status(x)
            == Some(TaskStatus::InProgress)),
        a == "stop"@ ==> (r matches Ok(x) && x is Stop && action_status(x) == Some(
            TaskStatus::Todo,
        )),
        (a == "delete"@ || a == "del"@ || a == "rm"@) ==> (r matches Ok(x) && x is Delete
            && action_status(x) is None),
{
    reveal_strlit("done");
    reveal_strlit("complete");
    reveal_strlit("d");
    reveal_strlit("c");
    reveal_strlit("start");
    reveal_strlit("s");
    reveal_strlit("stop");
    reveal_strlit("delete");
    reveal_strlit("del");
    reveal_strlit("rm");
    assert("done"@.len() == 4 && "done"@[0] == 'd');
    assert("complete"@.len() == 8);
    assert("d"@.len() == 1 && "d"@[0] == 'd');
    assert("c"@.len() == 1 && "c"@[0] == 'c');
    assert("start"@.len() == 5);
    assert("s"@.len() == 1 && "s"@[0] == 's');
    assert("stop"@.len() == 4 && "stop"@[0] == 's');
}

/// The words that set a field of the task need a value: without one, the
/// answer is the usage line of the task, which starts with
/// `Usage: pcli task <id>`; with a priority that reads, `priority` and `p`
/// give the same task with that priority, changed at `now`.
pub proof fn law_value_words(
    t: Task,
    id: i32,
    a: Seq<char>,
    value: Option<Seq<char>>,
    now: int,
    r: Result<TaskAction, Error>,
)
    requires
        action_outcome(t, id, Some(a), value, now, r),
    ensures
        (a == "priority"@ || a == "p"@ || a == "due"@ || a == "description"@ || a == "desc"@
            || a == "note"@ || a == "edit"@ || a == "title"@) && value is None ==> (r is Err
            && r->Err_0 is Other && has_prefix(
            r->Err_0->Other_0@,
            "Usage: pcli task "@ + decimal(id as int),
        )),
        ((a == "priority"@ || a == "p"@) && value is Some && priority_of_text(value->0) is Some)
            ==> (r matches Ok(TaskAction::SetPriority(n)) && n.priority == priority_of_text(
            value->0,
        )->0 && n.id == t.id
            && n.title == t.title && n.status == t.status && n.due_date == t.due_date
            && n.updated_at == now as i128),
{
    reveal_strlit("done");
    reveal_strlit("complete");
    reveal_strlit("d");
    reveal_strlit("c");
    reveal_strlit("start");
    reveal_strlit("s");
    reveal_strlit("stop");
    reveal_strlit("delete");
    reveal_strlit("del");
    reveal_strlit("rm");
    reveal_strlit("priority");
    reveal_strlit("p");
    reveal_strlit("due");
    reveal_strlit("description");
    reveal_strlit("desc");
    reveal_strlit("note");
    reveal_strlit("edit");
    reveal_strlit("title");
    assert("done"@.len() == 4 && "done"@[0] == 'd');
    assert("complete"@.len() == 8 && "complete"@[0] == 'c');
    assert("d"@.len() == 1 && "d"@[0] == 'd');
    assert("c"@.len() == 1 && "c"@[0] == 'c');
    assert("start"@.len() == 5 && "start"@[0] == 's');
    assert("s"@.len() == 1 && "s"@[0] == 's');
    assert("stop"@.len() == 4 && "stop"@[0] == 's');
    assert("done"@[1] == 'o' && "desc"@[1] == 'e');
    assert("delete"@.len() == 6);
    assert("del"@.len() == 3 && "del"@[0] == 'd');
    assert("rm"@.len() == 2 && "rm"@[0] == 'r');
    assert("priority"@.len() == 8 && "priority"@[0] == 'p');
    assert("p"@.len() == 1 && "p"@[0] == 'p');
    assert("due"@.len() == 3 && "due"@[0] == 'd' && "due"@[1] == 'u');
    assert("del"@[1] == 'e');
    assert("description"@.len() == 11);
    assert("desc"@.len() == 4 && "desc"@[0] == 'd');
    assert("note"@.len() == 4 && "note"@[0] == 'n');
    assert("edit"@.len() == 4 && "edit"@[0] == 'e');
    assert("title"@.len() == 5 && "title"@[0] == 't');
    let pre = "Usage: pcli task "@ + decimal(id as int);
    if value is None {
        let k = action_kind(a);
        if k is Priority || k is Due || k is Description || k is Title {
            let m = usage_message(id, k);
            assert(m.take(pre.len() as int) =~= pre);
        }
    }
}

impl TaskAction {
    /// The status this action sets, for the actions that change the status.
    pub fn new_status(&self) -> (r: Option<TaskStatus>)
        ensures
            r == action_status(*self),
    {
        match self {
            TaskAction::Complete => Some(TaskStatus::Done),
            TaskAction::Start => Some(TaskStatus::InProgress),
            TaskAction::Stop => Some(TaskStatus::Todo),
            _ => None,
        }
    }
}

} // verus!
