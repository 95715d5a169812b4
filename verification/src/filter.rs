//! The filters of the task list: by status, by due date, by priority.

use vstd::prelude::*;

use crate::clock::{day_number, day_of, valid_time, MAX_NANOS, NANOS_PER_DAY};
use crate::tasks_cmd::due_date_of;
use crate::error::{join2, Error};
use crate::task::{status_from_lower, priority_from_lower, task_due_on_day_of, task_overdue, Priority, Task, TaskStatus};
use crate::text::{all_ascii, ascii_lower, chars_of, lower_text, str_eq, string_of, to_lowercase};

verus! {

/// The windows of due dates that the list can be limited to.
#[derive(Debug, Clone, Copy, PartialEq, Eq, Structural)]
pub enum DueWindow {
    /// Due on the current day.
    Today,
    /// Due on the next day.
    Tomorrow,
    /// Due between the current day and seven days later.
    Week,
    /// Past due and not finished.
    Overdue,
}

/// A filter of the task list.
#[derive(Debug, Clone, Copy, PartialEq, Eq, Structural)]
pub enum TaskFilter {
    /// Tasks with this status (asked of the storage).
    Status(TaskStatus),
    /// Tasks due in this window.
    Due(DueWindow),
    /// Tasks of this priority.
    Priority(Priority),
}

/// The due window that a lower-case word names.
pub open spec fn due_window_of(v: Seq<char>) -> Option<DueWindow> {
    if v == "today"@ {
        Some(DueWindow::Today)
    } else if v == "tomorrow"@ || v == "tm"@ {
        Some(DueWindow::Tomorrow)
    } else if v == "week"@ || v == "nextweek"@ || v == "w"@ {
        Some(DueWindow::Week)
    } else if v == "overdue"@ || v == "o"@ {
        Some(DueWindow::Overdue)
    } else {
        None
    }
}

/// The position of the first `:` in `s`, if any.
pub open spec fn first_colon(s: Seq<char>) -> Option<int> {
    if exists|i: int| 0 <= i < s.len() && s[i] == ':' {
        Some(choose|i: int| 0 <= i < s.len() && s[i] == ':' && forall|j: int| 0 <= j < i ==> s[j] != ':')
    } else {
        None
    }
}

/// The filter that a text names, or the message of the error.  The text is
/// lower-cased; `key:value` forms name a status, a due window or a
/// priority; single words are the usual shortcuts.
pub open spec fn filter_of(filter: Seq<char>) -> Result<TaskFilter, Seq<char>> {
    let n = lower_text(filter);
    match first_colon(n) {
        Some(i) => {
            let key = n.take(i);
            let value = n.skip(i + 1);
            if key == "status"@ {
                match status_from_lower(lower_text(value)) {
                    Some(s) => Ok(TaskFilter::Status(s)),
                    None => Err("Unknown task status: "@ + value),
                }
            } else if key == "due"@ {
                match due_window_of(value) {
                    Some(w) => Ok(TaskFilter::Due(w)),
                    None => Err("Unknown due filter: "@ + value),
                }
            } else if key == "priority"@ {
                match priority_from_lower(lower_text(value)) {
                    Some(p) => Ok(TaskFilter::Priority(p)),
                    None => Err("Unknown task priority: "@ + value),
                }
            } else {
                Err("Unknown task filter: "@ + filter)
            }
        },
        None => if n == "pending"@ || n == "todo"@ || n == "t"@ {
            Ok(TaskFilter::Status(TaskStatus::Todo))
        } else if n == "active"@ || n == "inprogress"@ || n == "in_progress"@ || n == "progress"@
            || n == "a"@ {
            Ok(TaskFilter::Status(TaskStatus::InProgress))
        } else if n == "done"@ || n == "d"@ || n == "complete"@ || n == "completed"@ || n
            == "c"@ {
            Ok(TaskFilter::Status(TaskStatus::Done))
        } else if n == "cancelled"@ || n == "cancel"@ || n == "x"@ {
            Ok(TaskFilter::Status(TaskStatus::Cancelled))
        } else if n == "today"@ {
            Ok(TaskFilter::Due(DueWindow::Today))
        } else if n == "tomorrow"@ || n == "tm"@ {
            Ok(TaskFilter::Due(DueWindow::Tomorrow))
        } else if n == "week"@ || n == "nextweek"@ || n == "w"@ {
            Ok(TaskFilter::Due(DueWindow::Week))
        } else if n == "overdue"@ || n == "o"@ {
            Ok(TaskFilter::Due(DueWindow::Overdue))
        } else {
            Err("Unknown task filter: "@ + filter)
        },
    }
}

/// The due window that a lower-case word names.
fn due_window_exec(v: &str) -> (r: Option<DueWindow>)
    ensures
        r == due_window_of(v@),
{
    if str_eq(v, "today") {
        Some(DueWindow::Today)
    } else if str_eq(v, "tomorrow") || str_eq(v, "tm") {
        Some(DueWindow::Tomorrow)
    } else if str_eq(v, "week") || str_eq(v, "nextweek") || str_eq(v, "w") {
        Some(DueWindow::Week)
    } else if str_eq(v, "overdue") || str_eq(v, "o") {
        Some(DueWindow::Overdue)
    } else {
        None
    }
}

/// The position of the first `:` in `s`, if any.
fn find_colon(s: &[char]) -> (r: Option<usize>)
    ensures
        match r {
            Some(i) => first_colon(s@) == Some(i as int) && i < s@.len(),
            None => first_colon(s@) is None,
        },
{
    let mut i: usize = 0;
    while i < s.len()
        invariant
            i <= s@.len(),
            forall|j: int| 0 <= j < i ==> s@[j] != ':',
        decreases s@.len() - i,
    {
        if s[i] == ':' {
            proof {
                let k = choose|k: int|
                    0 <= k < s@.len() && s@[k] == ':' && forall|j: int| 0 <= j < k ==> s@[j] != ':';
                assert(0 <= i < s@.len() && s@[i as int] == ':' && forall|j: int|
                    0 <= j < i ==> s@[j] != ':');
                if k < i {
                } else if k > i {
                    assert(s@[i as int] != ':');
                }
            }
            return Some(i);
        }
        i = i + 1;
    }
    None
}

/// The error of an unknown filter, with its text as given.
fn unknown_filter(filter: &str) -> (e: Error)
    ensures
        e is Other && e->Other_0@ == "Unknown task filter: "@ + filter@,
{
    Error::Other(join2("Unknown task filter: ", filter))
}

/// Reads a filter of the task list, such as `pending`, `week`,
/// `status:done`, `due:overdue` or `priority:high`.
pub fn parse_task_filter(filter: &str) -> (r: Result<TaskFilter, Error>)
    ensures
        match filter_of(filter@) {
            Ok(f) => r == Ok::<TaskFilter, Error>(f),
            Err(m) => r is Err && r->Err_0 is Other && r->Err_0->Other_0@ == m,
        },
{
    let lower = to_lowercase(filter);
    let n = lower.as_str();
    let cs = chars_of(n);
    match find_colon(cs.as_slice()) {
        Some(i) => {
            let mut key_c: Vec<char> = Vec::new();
            let mut j: usize = 0;
            while j < i
                invariant
                    j <= i < cs@.len(),
                    key_c@ == cs@.take(j as int),
                decreases i - j,
            {
                key_c.push(cs[j]);
                assert(cs@.take(j as int).push(cs@[j as int]) =~= cs@.take(j + 1));
                j = j + 1;
            }
            let mut val_c: Vec<char> = Vec::new();
            let len = cs.len();
            assert(i < len);
            let mut k: usize = i + 1;
            while k < cs.len()
                invariant
                    i + 1 <= k <= cs@.len(),
                    val_c@ == cs@.subrange(i + 1, k as int),
                decreases cs@.len() - k,
            {
                val_c.push(cs[k]);
                assert(cs@.subrange(i + 1, k as int).push(cs@[k as int]) =~= cs@.subrange(
                    i + 1,
                    k + 1,
                ));
                k = k + 1;
            }
            assert(val_c@ =~= cs@.skip(i + 1));
            let key = string_of(key_c.as_slice());
            let value = string_of(val_c.as_slice());
            if str_eq(key.as_str(), "status") {
                match TaskStatus::parse(value.as_str()) {
                    Ok(s) => Ok(TaskFilter::Status(s)),
                    Err(_) => Err(Error::Other(join2("Unknown task status: ", value.as_str()))),
                }
            } else if str_eq(key.as_str(), "due") {
                match due_window_exec(value.as_str()) {
                    Some(w) => Ok(TaskFilter::Due(w)),
                    None => Err(Error::Other(join2("Unknown due filter: ", value.as_str()))),
                }
            } else if str_eq(key.as_str(), "priority") {
                match Priority::parse(value.as_str()) {
                    Ok(p) => Ok(TaskFilter::Priority(p)),
                    Err(_) => Err(Error::Other(join2("Unknown task priority: ", value.as_str()))),
                }
            } else {
                Err(unknown_filter(filter))
            }
        },
        None => {
            if str_eq(n, "pending") || str_eq(n, "todo") || str_eq(n, "t") {
                Ok(TaskFilter::Status(TaskStatus::Todo))
            } else if str_eq(n, "active") || str_eq(n, "inprogress") || str_eq(n, "in_progress")
                || str_eq(n, "progress") || str_eq(n, "a") {
                Ok(TaskFilter::Status(TaskStatus::InProgress))
            } else if str_eq(n, "done") || str_eq(n, "d") || str_eq(n, "complete") || str_eq(
                n,
                "completed",
            ) || str_eq(n, "c") {
                Ok(TaskFilter::Status(TaskStatus::Done))
            } else if str_eq(n, "cancelled") || str_eq(n, "cancel") || str_eq(n, "x") {
                Ok(TaskFilter::Status(TaskStatus::Cancelled))
            } else {
                match due_window_exec(n) {
                    Some(w) => Ok(TaskFilter::Due(w)),
                    None => Err(unknown_filter(filter)),
                }
            }
        },
    }
}

/// The last day of the calendar, counted from the epoch.
pub open spec fn last_day() -> int {
    LAST_DAY as int
}

/// Whether a task falls in a due window on the day of `now`.
pub open spec fn in_window(t: Task, w: DueWindow, now: int) -> bool {
    match w {
        DueWindow::Today => task_due_on_day_of(t, now),
        DueWindow::Tomorrow => match t.due_date {
            Some(d) => day_of(d as int) == day_of(now) + 1,
            None => false,
        },
        DueWindow::Week => match t.due_date {
            Some(d) => day_of(now) <= day_of(d as int) <= day_of(now) + 7,
            None => false,
        },
        DueWindow::Overdue => task_overdue(t, now),
    }
}

/// Whether a task is kept by a filter at `now`.
pub open spec fn kept_by(t: Task, f: TaskFilter, now: int) -> bool {
    match f {
        TaskFilter::Status(s) => t.status == s,
        TaskFilter::Due(w) => in_window(t, w, now),
        TaskFilter::Priority(p) => t.priority == p,
    }
}

/// Whether looking at task `t` through the window `w` on the day of `now`
/// runs past the end of the calendar: the next day, or the day a week
/// ahead, does not exist (the week is only looked at for tasks due from the
/// current day on).
pub open spec fn window_faults_on(t: Task, w: DueWindow, now: int) -> bool {
    match t.due_date {
        Some(d) => match w {
            DueWindow::Tomorrow => day_of(now) + 1 > last_day(),
            DueWindow::Week => day_of(d as int) >= day_of(now) && day_of(now) + 7 > last_day(),
            _ => false,
        },
        None => false,
    }
}

/// Whether filtering `tasks` with `f` at `now` runs past the end of the
/// calendar.
pub open spec fn filter_faults(tasks: Seq<Task>, f: TaskFilter, now: int) -> bool {
    f matches TaskFilter::Due(w) && exists|i: int|
        0 <= i < tasks.len() && window_faults_on(#[trigger] tasks[i], w, now)
}

/// The tasks of `tasks` that a filter keeps, in order.
pub open spec fn filtered(tasks: Seq<Task>, f: TaskFilter, now: int) -> Seq<Task> {
    tasks.filter(|t: Task| kept_by(t, f, now))
}

/// Whether a task is kept by a filter at `now`.
pub fn keeps(t: &Task, f: TaskFilter, now: i128) -> (r: bool)
    requires
        t.wf(),
        valid_time(now as int),
        !(f matches TaskFilter::Due(w) && window_faults_on(*t, w, now as int)),
    ensures
        r == kept_by(*t, f, now as int),
{
    match f {
        TaskFilter::Status(s) => t.status == s,
        TaskFilter::Priority(p) => t.priority == p,
        TaskFilter::Due(w) => match w {
            DueWindow::Today => t.is_due_today_at(now),
            DueWindow::Overdue => t.is_overdue_at(now),
            DueWindow::Tomorrow => match t.due_date {
                Some(d) => day_number(d) == day_number(now) + 1,
                None => false,
            },
            DueWindow::Week => match t.due_date {
                Some(d) => {
                    let dd = day_number(d);
                    let today = day_number(now);
                    dd >= today && dd <= today + 7
                },
                None => false,
            },
        },
    }
}

/// The tasks of `tasks` that the filter keeps at `now`, in their order.
pub fn filter_tasks(tasks: &Vec<Task>, f: TaskFilter, now: i128) -> (r: Vec<Task>)
    requires
        forall|i: int| 0 <= i < tasks@.len() ==> (#[trigger] tasks@[i]).wf(),
        valid_time(now as int),
        !filter_faults(tasks@, f, now as int),
    ensures
        r@ == filtered(tasks@, f, now as int),
{
    let mut r: Vec<Task> = Vec::new();
    let mut i: usize = 0;
    while i < tasks.len()
        invariant
            i <= tasks@.len(),
            forall|k: int| 0 <= k < tasks@.len() ==> (#[trigger] tasks@[k]).wf(),
            valid_time(now as int),
            !filter_faults(tasks@, f, now as int),
            r@ == tasks@.take(i as int).filter(|t: Task| kept_by(t, f, now as int)),
        decreases tasks@.len() - i,
    {
        let t = &tasks[i];
        proof {
            if f matches TaskFilter::Due(w) && window_faults_on(*t, w, now as int) {
                assert(filter_faults(tasks@, f, now as int));
            }
            assert(tasks@.take(i + 1).drop_last() =~= tasks@.take(i as int));
            reveal_with_fuel(Seq::<Task>::filter, 1);
        }
        if keeps(t, f, now) {
            r.push(t.duplicate());
        }
        i = i + 1;
    }
    proof {
        assert(tasks@.take(tasks@.len() as int) =~= tasks@);
    }
    r
}

/// Whether filtering `tasks` with `f` at `now` runs past the end of the
/// calendar.
pub fn filter_faults_exec(tasks: &Vec<Task>, f: TaskFilter, now: i128) -> (r: bool)
    requires
        forall|i: int| 0 <= i < tasks@.len() ==> (#[trigger] tasks@[i]).wf(),
        valid_time(now as int),
    ensures
        r == filter_faults(tasks@, f, now as int),
{
    let w = match f {
        TaskFilter::Due(w) => w,
        _ => {
            return false;
        },
    };
    let today = day_number(now);
    let mut i: usize = 0;
    while i < tasks.len()
        invariant
            i <= tasks@.len(),
            forall|k: int| 0 <= k < tasks@.len() ==> (#[trigger] tasks@[k]).wf(),
            valid_time(now as int),
            today == day_of(now as int),
            f == TaskFilter::Due(w),
            forall|k: int| 0 <= k < i ==> !window_faults_on(#[trigger] tasks@[k], w, now as int),
        decreases tasks@.len() - i,
    {
        let t = &tasks[i];
        let bad = match t.due_date {
            Some(d) => match w {
                DueWindow::Tomorrow => today + 1 > LAST_DAY,
                DueWindow::Week => day_number(d) >= today && today + 7 > LAST_DAY,
                _ => false,
            },
            None => false,
        };
        if bad {
            assert(window_faults_on(tasks@[i as int], w, now as int));
            return true;
        }
        i = i + 1;
    }
    false
}

/// A task due today or tomorrow is among the tasks due this week.
pub proof fn law_today_and_tomorrow_within_week(t: Task, now: int)
    ensures
        in_window(t, DueWindow::Today, now) ==> in_window(t, DueWindow::Week, now),
        in_window(t, DueWindow::Tomorrow, now) ==> in_window(t, DueWindow::Week, now),
{
}

/// For ASCII text, reading a filter ignores case: two texts that agree up to
/// ASCII case name the same filter, or are both refused.
pub proof fn law_filter_parse_ignores_ascii_case(f1: Seq<char>, f2: Seq<char>)
    requires
        all_ascii(f1),
        all_ascii(f2),
        ascii_lower(f1) == ascii_lower(f2),
    ensures
        filter_of(f1) is Ok <==> filter_of(f2) is Ok,
        filter_of(f1) is Ok ==> filter_of(f1) == filter_of(f2),
{
    let n = ascii_lower(f1);
    assert(lower_text(f1) == n && lower_text(f2) == n);
}

/// A task given the due date `today`, `tomorrow` or `week` (in any case)
/// is listed by the filter of the same name on that day.
pub proof fn law_due_words_land_in_their_window(t: Task, s: Seq<char>, now: int)
    requires
        due_date_of(s, now) is Ok,
        valid_time(due_date_of(s, now)->Ok_0),
        t.due_date == Some(due_date_of(s, now)->Ok_0 as i128),
    ensures
        lower_text(s) == "today"@ ==> in_window(t, DueWindow::Today, now),
        lower_text(s) == "tomorrow"@ ==> in_window(t, DueWindow::Tomorrow, now),
        (lower_text(s) == "week"@ || lower_text(s) == "nextweek"@) ==> in_window(
            t,
            DueWindow::Week,
            now,
        ),
{
    reveal_strlit("today");
    reveal_strlit("tomorrow");
    reveal_strlit("week");
    reveal_strlit("nextweek");
    let day = NANOS_PER_DAY as int;
    assert((now + day) / day == now / day + 1) by (nonlinear_arith)
        requires
            day == 86_400_000_000_000,
    ;
    assert((now + 7 * day) / day == now / day + 7) by (nonlinear_arith)
        requires
            day == 86_400_000_000_000,
    ;
    assert("tomorrow"@.len() != "today"@.len());
}

/// The `overdue` filter keeps exactly the tasks that have a due date before
/// `now` and are not finished, whether to do or in progress.
pub proof fn law_overdue_filter_keeps_unfinished_past_due(t: Task, now: int)
    ensures
        kept_by(t, TaskFilter::Due(DueWindow::Overdue), now) <==> (t.due_date is Some
            && (t.due_date->0 as int) < now && t.status != TaskStatus::Done && t.status
            != TaskStatus::Cancelled),
{
}

/// Each filter keeps a part of the list: a kept task is in the list, and
/// the kept tasks come in the list's order.
pub proof fn law_filter_keeps_a_part(tasks: Seq<Task>, f: TaskFilter, now: int)
    ensures
        filtered(tasks, f, now).len() <= tasks.len(),
        forall|k: int|
            0 <= k < filtered(tasks, f, now).len() ==> tasks.contains(
                #[trigger] filtered(tasks, f, now)[k],
            ) && kept_by(filtered(tasks, f, now)[k], f, now),
        forall|i: int|
            0 <= i < tasks.len() && kept_by(#[trigger] tasks[i], f, now) ==> filtered(
                tasks,
                f,
                now,
            ).contains(tasks[i]),
{
    broadcast use vstd::seq_lib::group_filter_ensures;

    let pred = |t: Task| kept_by(t, f, now);
    assert forall|k: int| 0 <= k < filtered(tasks, f, now).len() implies tasks.contains(
        #[trigger] filtered(tasks, f, now)[k],
    ) && kept_by(filtered(tasks, f, now)[k], f, now) by {
        let x = filtered(tasks, f, now)[k];
        assert(tasks.filter(pred).contains(x));
        tasks.lemma_filter_contains_rev(pred, x);
    }
}

/// The last day of the calendar, counted from the epoch.
pub const LAST_DAY: i64 = 95_026_236;

} // verus!
