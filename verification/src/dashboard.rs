//! What the dashboard and the status line show of the current project.

use vstd::prelude::*;
use vstd::string::StringSliceAdditionalSpecFns;
use vstd::utf8::encode_utf8;

use crate::clock::{format_month_day, month_day_text, valid_time};
use crate::reminder::{reminder_remaining_text, Reminder};
use crate::table::{can_cut_bytes, truncate_bytes, truncated_bytes};
use crate::task::Task;
use crate::text::{byte_len, string_from};

verus! {

/// Widest active task title on the dashboard, in bytes.
pub const ACTIVE_TITLE_BYTES: usize = 27;

/// Widest pending task title on the dashboard, in bytes.
pub const PENDING_TITLE_BYTES: usize = 23;

/// Widest reminder message on the dashboard, in bytes.
pub const REMINDER_BYTES: usize = 20;

/// How many active tasks the dashboard lists.
pub const ACTIVE_SHOWN: usize = 3;

/// How many pending tasks the dashboard lists.
pub const PENDING_SHOWN: usize = 5;

/// How many reminders the dashboard lists.
pub const REMINDERS_SHOWN: usize = 3;

/// A task line of the dashboard.
#[derive(Debug)]
pub struct DashTask {
    /// The task's id.
    pub id: i32,
    /// Its title, cut to fit.
    pub title: String,
    /// ` [Mon DD]` for a pending task with a due date, otherwise empty.
    pub due: String,
}

/// A reminder line of the dashboard.
#[derive(Debug)]
pub struct DashReminder {
    /// The message, cut to fit.
    pub message: String,
    /// The time left, as `10m` or `now`.
    pub remaining: String,
}

/// What the dashboard shows of a project.
#[derive(Debug)]
pub struct Dashboard {
    /// The project's name.
    pub name: String,
    /// How many of its tasks are done.
    pub done: i32,
    /// How many are still to do.
    pub pending: usize,
    /// How many are in progress.
    pub active_count: usize,
    /// The first active tasks.
    pub active: Vec<DashTask>,
    /// The first pending tasks.
    pub waiting: Vec<DashTask>,
    /// The first pending reminders.
    pub reminders: Vec<DashReminder>,
}

/// How many of `len` items are listed when at most `n` are.
pub open spec fn listed(n: int, len: int) -> int {
    if len < n {
        len
    } else {
        n
    }
}

/// The due tag of a pending task: ` [Mon DD]`, or nothing without a due
/// date.
pub open spec fn due_tag(t: Task) -> Seq<char> {
    match t.due_date {
        Some(d) => " ["@ + month_day_text(d as int) + "]"@,
        None => Seq::<char>::empty(),
    }
}

/// Whether `d` is the dashboard line of the task `t`, its title cut to
/// `width` bytes, with its due tag when `with_due`.
pub open spec fn dash_task_of(d: DashTask, t: Task, width: nat, with_due: bool) -> bool {
    &&& d.id == t.id
    &&& d.title@ == truncated_bytes(t.title@, width)
    &&& d.due@ == if with_due {
        due_tag(t)
    } else {
        Seq::<char>::empty()
    }
}

/// Whether the first `n` titles of `tasks` can be cut to `width` bytes.
pub open spec fn titles_cut(tasks: Seq<Task>, n: int, width: nat) -> bool {
    forall|i: int| 0 <= i < listed(n, tasks.len() as int) ==> can_cut_bytes(
        #[trigger] tasks[i].title@,
        width,
    )
}

/// Whether the first `n` messages of `rs` can be cut to `width` bytes.
pub open spec fn messages_cut(rs: Seq<Reminder>, n: int, width: nat) -> bool {
    forall|i: int| 0 <= i < listed(n, rs.len() as int) ==> can_cut_bytes(
        #[trigger] rs[i].message@,
        width,
    )
}

/// Whether the dashboard can be drawn from these tasks and reminders: every
/// title and message it lists can be cut where it needs.
pub open spec fn dashboard_drawable(active: Seq<Task>, todo: Seq<Task>, rs: Seq<Reminder>) -> bool {
    &&& titles_cut(active, ACTIVE_SHOWN as int, ACTIVE_TITLE_BYTES as nat)
    &&& titles_cut(todo, PENDING_SHOWN as int, PENDING_TITLE_BYTES as nat)
    &&& messages_cut(rs, REMINDERS_SHOWN as int, REMINDER_BYTES as nat)
}

/// The due tag of a pending task.
fn due_tag_string(t: &Task) -> (r: String)
    requires
        t.wf(),
    ensures
        r@ == due_tag(*t),
{
    match t.due_date {
        Some(d) => {
            let md = format_month_day(d);
            let mut r = string_from(" [");
            r.append(md.as_str());
            r.append("]");
            r
        },
        None => String::new(),
    }
}

/// The dashboard lines of the first `n` tasks, titles cut to `width`.
fn dash_tasks(tasks: &Vec<Task>, n: usize, width: usize, with_due: bool) -> (r: Vec<DashTask>)
    requires
        titles_cut(tasks@, n as int, width as nat),
        with_due ==> forall|i: int| 0 <= i < tasks@.len() ==> (#[trigger] tasks@[i]).wf(),
    ensures
        r@.len() == listed(n as int, tasks@.len() as int),
        forall|i: int| 0 <= i < r@.len() ==> dash_task_of(#[trigger] r@[i], tasks@[i], width as nat, with_due),
{
    let count = if tasks.len() < n {
        tasks.len()
    } else {
        n
    };
    let mut r: Vec<DashTask> = Vec::new();
    let mut i: usize = 0;
    while i < count
        invariant
            count == listed(n as int, tasks@.len() as int),
            i <= count,
            r@.len() == i,
            titles_cut(tasks@, n as int, width as nat),
            with_due ==> forall|k: int| 0 <= k < tasks@.len() ==> (#[trigger] tasks@[k]).wf(),
            forall|k: int| 0 <= k < i ==> dash_task_of(#[trigger] r@[k], tasks@[k], width as nat, with_due),
        decreases count - i,
    {
        let t = &tasks[i];
        assert(can_cut_bytes(tasks@[i as int].title@, width as nat));
        let title = truncate_bytes(t.title.as_str(), width);
        let due = if with_due {
            due_tag_string(t)
        } else {
            String::new()
        };
        r.push(DashTask { id: t.id, title, due });
        i = i + 1;
    }
    r
}

/// What the dashboard shows at `now` of the project named `name`, with
/// `done` of its tasks done, its active (in progress) tasks, its pending (to
/// do) tasks and the pending reminders (each list in the order the storage
/// gives it): the counts of done, pending and active tasks, the first three
/// active tasks (titles cut to 27 bytes), the first five pending tasks
/// (titles cut to 23 bytes, with their due dates) and the first three
/// reminders (messages cut to 20 bytes, with the time left).
pub fn dashboard_at(
    name: &str,
    done: i32,
    active: &Vec<Task>,
    todo: &Vec<Task>,
    reminders: &Vec<Reminder>,
    now: i128,
) -> (d: Dashboard)
    requires
        dashboard_drawable(active@, todo@, reminders@),
        forall|i: int| 0 <= i < todo@.len() ==> (#[trigger] todo@[i]).wf(),
        forall|i: int| 0 <= i < reminders@.len() ==> (#[trigger] reminders@[i]).wf(),
        valid_time(now as int),
    ensures
        d.name@ == name@,
        d.done == done,
        d.pending == todo@.len(),
        d.active_count == active@.len(),
        d.active@.len() == listed(ACTIVE_SHOWN as int, active@.len() as int),
        forall|i: int|
            0 <= i < d.active@.len() ==> dash_task_of(
                #[trigger] d.active@[i],
                active@[i],
                ACTIVE_TITLE_BYTES as nat,
                false,
            ),
        d.waiting@.len() == listed(PENDING_SHOWN as int, todo@.len() as int),
        forall|i: int|
            0 <= i < d.waiting@.len() ==> dash_task_of(
                #[trigger] d.waiting@[i],
                todo@[i],
                PENDING_TITLE_BYTES as nat,
                true,
            ),
        d.reminders@.len() == listed(REMINDERS_SHOWN as int, reminders@.len() as int),
        forall|i: int|
            0 <= i < d.reminders@.len() ==> (#[trigger] d.reminders@[i]).message@ == truncated_bytes(
                reminders@[i].message@,
                REMINDER_BYTES as nat,
            ) && d.reminders@[i].remaining@ == reminder_remaining_text(reminders@[i], now as int),
{
    let act = dash_tasks(active, ACTIVE_SHOWN, ACTIVE_TITLE_BYTES, false);
    let wait = dash_tasks(todo, PENDING_SHOWN, PENDING_TITLE_BYTES, true);
    let count = if reminders.len() < REMINDERS_SHOWN {
        reminders.len()
    } else {
        REMINDERS_SHOWN
    };
    let mut rs: Vec<DashReminder> = Vec::new();
    let mut i: usize = 0;
    while i < count
        invariant
            count == listed(REMINDERS_SHOWN as int, reminders@.len() as int),
            i <= count,
            rs@.len() == i,
            messages_cut(reminders@, REMINDERS_SHOWN as int, REMINDER_BYTES as nat),
            forall|k: int| 0 <= k < reminders@.len() ==> (#[trigger] reminders@[k]).wf(),
            valid_time(now as int),
            forall|k: int|
                0 <= k < i ==> (#[trigger] rs@[k]).message@ == truncated_bytes(
                    reminders@[k].message@,
                    REMINDER_BYTES as nat,
                ) && rs@[k].remaining@ == reminder_remaining_text(reminders@[k], now as int),
        decreases count - i,
    {
        let r = &reminders[i];
        assert(can_cut_bytes(reminders@[i as int].message@, REMINDER_BYTES as nat));
        let message = truncate_bytes(r.message.as_str(), REMINDER_BYTES);
        let remaining = r.time_remaining_str_at(now);
        rs.push(DashReminder { message, remaining });
        i = i + 1;
    }
    Dashboard {
        name: string_from(name),
        done,
        pending: todo.len(),
        active_count: active.len(),
        active: act,
        waiting: wait,
        reminders: rs,
    }
}

/// Whether the dashboard can be drawn from these tasks and reminders (see
/// `dashboard_drawable`).
pub fn dashboard_drawable_exec(active: &Vec<Task>, todo: &Vec<Task>, reminders: &Vec<Reminder>) -> (r: bool)
    ensures
        r == dashboard_drawable(active@, todo@, reminders@),
{
    titles_cut_exec(active, ACTIVE_SHOWN, ACTIVE_TITLE_BYTES) && titles_cut_exec(
        todo,
        PENDING_SHOWN,
        PENDING_TITLE_BYTES,
    ) && messages_cut_exec(reminders, REMINDERS_SHOWN, REMINDER_BYTES)
}

/// Whether `s` can be cut to `width` bytes (see `can_cut_bytes`).
pub fn can_cut(s: &str, width: usize) -> (r: bool)
    ensures
        r == can_cut_bytes(s@, width as nat),
{
    proof {
        assert(s.spec_bytes() == encode_utf8(s@));
    }
    if byte_len(s) > width {
        width >= 3 && s.is_char_boundary(width - 3)
    } else {
        true
    }
}

fn titles_cut_exec(tasks: &Vec<Task>, n: usize, width: usize) -> (r: bool)
    ensures
        r == titles_cut(tasks@, n as int, width as nat),
{
    let count = if tasks.len() < n {
        tasks.len()
    } else {
        n
    };
    let mut i: usize = 0;
    while i < count
        invariant
            count == listed(n as int, tasks@.len() as int),
            i <= count,
            forall|k: int| 0 <= k < i ==> can_cut_bytes(#[trigger] tasks@[k].title@, width as nat),
        decreases count - i,
    {
        if !can_cut(tasks[i].title.as_str(), width) {
            return false;
        }
        i = i + 1;
    }
    true
}

fn messages_cut_exec(rs: &Vec<Reminder>, n: usize, width: usize) -> (r: bool)
    ensures
        r == messages_cut(rs@, n as int, width as nat),
{
    let count = if rs.len() < n {
        rs.len()
    } else {
        n
    };
    let mut i: usize = 0;
    while i < count
        invariant
            count == listed(n as int, rs@.len() as int),
            i <= count,
            forall|k: int| 0 <= k < i ==> can_cut_bytes(#[trigger] rs@[k].message@, width as nat),
        decreases count - i,
    {
        if !can_cut(rs[i].message.as_str(), width) {
            return false;
        }
        i = i + 1;
    }
    true
}

} // verus!
