//! Reminders and references to tasks of a project.

use vstd::prelude::*;

use crate::clock::{now_nanos, valid_time, MAX_NANOS, MIN_NANOS, NANOS_PER_SEC};
use crate::duration::{duration_faults, duration_faults_exec, duration_seconds, parse_duration};
use crate::error::{join2, Error};
use crate::text::{
    chars_of, decimal, decimal_string, eq_ascii_nocase, eq_ignore_ascii_case, lemma_decimal_parses,
    lemma_words_cons, lemma_words_single, lower_text, no_ws, parse_i32, parse_i32_spec,
    split_whitespace, string_from, string_of, to_lowercase, ws_words,
};

verus! {

/// Where a reminder stands.
#[derive(Debug, Clone, Copy, PartialEq, Eq, Structural)]
pub enum ReminderStatus {
    Pending,
    Fired,
    Dismissed,
    Snoozed,
}

/// The canonical name of a reminder status, as it is stored.
pub open spec fn reminder_status_name(s: ReminderStatus) -> Seq<char> {
    match s {
        ReminderStatus::Pending => "pending"@,
        ReminderStatus::Fired => "fired"@,
        ReminderStatus::Dismissed => "dismissed"@,
        ReminderStatus::Snoozed => "snoozed"@,
    }
}

impl ReminderStatus {
    /// The canonical name of the status.
    pub fn as_str(&self) -> (r: &'static str)
        ensures
            r@ == reminder_status_name(*self),
    {
        match self {
            ReminderStatus::Pending => "pending",
            ReminderStatus::Fired => "fired",
            ReminderStatus::Dismissed => "dismissed",
            ReminderStatus::Snoozed => "snoozed",
        }
    }

    /// The canonical name of the status, as an owned string.
    pub fn to_string(&self) -> (r: String)
        ensures
            r@ == reminder_status_name(*self),
    {
        string_from(self.as_str())
    }
}

/// A reference to a task of a project, written `<project> task <id>`.
#[derive(Debug, Clone)]
pub struct TaskRef {
    /// Project identifier.
    pub project: String,
    /// Task identifier.
    pub task_id: i32,
}

/// What a text such as `calorii task 2` refers to: its first word
/// lower-cased and the number in its third word, when its second word is
/// `task` in any ASCII case and the third is a number.  Further words are
/// ignored.
pub open spec fn task_ref_of(s: Seq<char>) -> Option<(Seq<char>, i32)> {
    let parts = ws_words(s);
    if parts.len() >= 3 && eq_ascii_nocase(parts[1], "task"@) && parse_i32_spec(parts[2]) is Some {
        Some((lower_text(parts[0]), parse_i32_spec(parts[2])->0))
    } else {
        None
    }
}

/// The text of a task reference.
pub open spec fn task_ref_text(project: Seq<char>, task_id: i32) -> Seq<char> {
    project + " task "@ + decimal(task_id as int)
}

impl TaskRef {
    /// Reads a reference such as `calorii task 2`.
    pub fn parse(s: &str) -> (r: Option<TaskRef>)
        ensures
            match r {
                Some(t) => task_ref_of(s@) == Some((t.project@, t.task_id)),
                None => task_ref_of(s@) is None,
            },
    {
        let cs = chars_of(s);
        let parts = split_whitespace(cs.as_slice());
        proof {
            assert(parts@.len() == ws_words(s@).len());
        }
        if parts.len() >= 3 {
            let task_word = chars_of("task");
            proof {
                assert(parts@[1]@ == ws_words(s@)[1]);
                assert(parts@[2]@ == ws_words(s@)[2]);
                assert(parts@[0]@ == ws_words(s@)[0]);
            }
            if eq_ignore_ascii_case(parts[1].as_slice(), task_word.as_slice()) {
                let id_text = string_of(parts[2].as_slice());
                if let Some(task_id) = parse_i32(id_text.as_str()) {
                    let first = string_of(parts[0].as_slice());
                    return Some(TaskRef { project: to_lowercase(first.as_str()), task_id });
                }
            }
        }
        None
    }

    /// The text of the reference, `<project> task <id>`.
    pub fn to_string(&self) -> (r: String)
        ensures
            r@ == task_ref_text(self.project@, self.task_id),
    {
        let n = decimal_string(self.task_id as i64);
        let mut r = join2(self.project.as_str(), " task ");
        r.append(n.as_str());
        r
    }
}

/// The text of a reference to a task reads back as the same reference,
/// when the project is a single lower-case word (as the slug of an ASCII
/// name is): a reminder about a task names the task it was set for.
pub proof fn law_task_ref_text_reads_back(project: Seq<char>, task_id: i32)
    requires
        project.len() > 0,
        no_ws(project),
        lower_text(project) == project,
    ensures
        task_ref_of(task_ref_text(project, task_id)) == Some((project, task_id)),
{
    reveal_strlit(" task ");
    reveal_strlit("task");
    let d = decimal(task_id as int);
    lemma_decimal_parses(task_id);
    let task_word = "task"@;
    assert(no_ws(task_word));
    lemma_words_single(d);
    lemma_words_cons(task_word, d);
    let rest = task_word + seq![' '] + d;
    lemma_words_cons(project, rest);
    assert(task_ref_text(project, task_id) =~= project + seq![' '] + rest);
    let parts = ws_words(task_ref_text(project, task_id));
    assert(parts =~= seq![project, task_word, d]);
}

/// A reminder to be notified of at a given time.  Points in time are
/// nanoseconds since the epoch.
#[derive(Debug, Clone)]
pub struct Reminder {
    /// Identifier given by the storage (0 until stored).
    pub id: i32,
    /// What to remind of.
    pub message: String,
    /// Project of the task the reminder is about, if any.
    pub project_id: Option<String>,
    /// Task the reminder is about, if any.
    pub task_id: Option<i32>,
    /// When to notify.
    pub remind_at: i128,
    /// Current status.
    pub status: ReminderStatus,
    /// When the reminder was created.
    pub created_at: i128,
}

/// Whether a reminder is due at `now`: pending, and its time has come.
pub open spec fn reminder_due(r: Reminder, now: int) -> bool {
    r.status == ReminderStatus::Pending && (r.remind_at as int) <= now
}

/// The time left before a reminder fires, in nanoseconds, if it is pending
/// and its time is still ahead.
pub open spec fn reminder_remaining(r: Reminder, now: int) -> Option<int> {
    if r.status == ReminderStatus::Pending && (r.remind_at as int) - now > 0 {
        Some((r.remind_at as int) - now)
    } else {
        None
    }
}

/// How a positive number of whole seconds left is shown: seconds under a
/// minute, minutes under an hour, hours and minutes under a day, else days
/// and hours.
pub open spec fn remaining_text(secs: int) -> Seq<char> {
    if secs < 60 {
        decimal(secs) + "s"@
    } else if secs < 3600 {
        decimal(secs / 60) + "m"@
    } else if secs < 86400 {
        decimal(secs / 3600) + "h "@ + decimal((secs % 3600) / 60) + "m"@
    } else {
        decimal(secs / 86400) + "d "@ + decimal((secs % 86400) / 3600) + "h"@
    }
}

/// The text of the time left before a reminder fires: `now` when nothing
/// is left.
pub open spec fn reminder_remaining_text(r: Reminder, now: int) -> Seq<char> {
    match reminder_remaining(r, now) {
        Some(d) => remaining_text(d / (NANOS_PER_SEC as int)),
        None => "now"@,
    }
}

/// The number `a` and the unit `u` written one after the other.
fn num_unit(a: i64, u: &str) -> (r: String)
    ensures
        r@ == decimal(a as int) + u@,
{
    let mut r = decimal_string(a);
    r.append(u);
    r
}

impl Reminder {
    /// Whether the points in time of the reminder are representable.
    pub open spec fn wf(&self) -> bool {
        valid_time(self.remind_at as int) && valid_time(self.created_at as int)
    }

    /// A pending reminder with a message, to fire at `remind_at`, created at
    /// `now`.
    pub fn new_at(message: &str, remind_at: i128, now: i128) -> (r: Reminder)
        ensures
            r.id == 0,
            r.message@ == message@,
            r.project_id is None,
            r.task_id is None,
            r.remind_at == remind_at,
            r.status == ReminderStatus::Pending,
            r.created_at == now,
    {
        Reminder {
            id: 0,
            message: string_from(message),
            project_id: None,
            task_id: None,
            remind_at,
            status: ReminderStatus::Pending,
            created_at: now,
        }
    }

    /// A pending reminder with a message, to fire at `remind_at`, created
    /// now.
    pub fn new(message: &str, remind_at: i128) -> (r: Reminder)
        ensures
            r.id == 0,
            r.message@ == message@,
            r.project_id is None,
            r.task_id is None,
            r.remind_at == remind_at,
            r.status == ReminderStatus::Pending,
            valid_time(r.created_at as int),
    {
        let now = now_nanos();
        Reminder::new_at(message, remind_at, now)
    }

    /// A pending reminder about a task, to fire at `remind_at`, created at
    /// `now`; its message is the text of the reference.
    pub fn for_task_at(task_ref: TaskRef, remind_at: i128, now: i128) -> (r: Reminder)
        ensures
            r.id == 0,
            r.message@ == task_ref_text(task_ref.project@, task_ref.task_id),
            r.project_id == Some(task_ref.project),
            r.task_id == Some(task_ref.task_id),
            r.remind_at == remind_at,
            r.status == ReminderStatus::Pending,
            r.created_at == now,
    {
        let message = task_ref.to_string();
        Reminder {
            id: 0,
            message,
            project_id: Some(task_ref.project),
            task_id: Some(task_ref.task_id),
            remind_at,
            status: ReminderStatus::Pending,
            created_at: now,
        }
    }

    /// A pending reminder about a task, to fire at `remind_at`, created now.
    pub fn for_task(task_ref: TaskRef, remind_at: i128) -> (r: Reminder)
        ensures
            r.id == 0,
            r.message@ == task_ref_text(task_ref.project@, task_ref.task_id),
            r.project_id == Some(task_ref.project),
            r.task_id == Some(task_ref.task_id),
            r.remind_at == remind_at,
            r.status == ReminderStatus::Pending,
            valid_time(r.created_at as int),
    {
        let now = now_nanos();
        Reminder::for_task_at(task_ref, remind_at, now)
    }

    /// Whether the reminder is due at `now`.
    pub fn should_fire_at(&self, now: i128) -> (r: bool)
        ensures
            r == reminder_due(*self, now as int),
    {
        self.status == ReminderStatus::Pending && self.remind_at <= now
    }

    /// Whether the reminder is due now: what `should_fire_at` gives at the
    /// moment the clock reads.  Whatever it reads, a reminder that is not
    /// pending never fires.
    pub fn should_fire(&self) -> (r: bool)
        ensures
            exists|now: int| valid_time(now) && r == #[trigger] reminder_due(*self, now),
            r ==> self.status == ReminderStatus::Pending,
    {
        let now = now_nanos();
        self.should_fire_at(now)
    }

    /// The time left at `now` before the reminder fires, in nanoseconds.
    pub fn time_remaining_at(&self, now: i128) -> (r: Option<i128>)
        requires
            self.wf(),
            valid_time(now as int),
        ensures
            match reminder_remaining(*self, now as int) {
                Some(d) => r == Some(d as i128),
                None => r is None,
            },
    {
        if self.status == ReminderStatus::Pending && self.remind_at > now {
            let d = self.remind_at - now;
            Some(d)
        } else {
            None
        }
    }

    /// The time left now before the reminder fires, in nanoseconds: what
    /// `time_remaining_at` gives at the moment the clock reads.  Whatever it
    /// reads, a reminder that is not pending has none.
    pub fn time_remaining(&self) -> (r: Option<i128>)
        requires
            self.wf(),
        ensures
            exists|now: int|
                valid_time(now) && match #[trigger] reminder_remaining(*self, now) {
                    Some(d) => r == Some(d as i128),
                    None => r is None,
                },
            r is Some ==> self.status == ReminderStatus::Pending,
    {
        let now = now_nanos();
        self.time_remaining_at(now)
    }

    /// The time left at `now`, for display: `45s`, `10m`, `2h 5m`, `3d 4h`,
    /// or `now`.
    pub fn time_remaining_str_at(&self, now: i128) -> (r: String)
        requires
            self.wf(),
            valid_time(now as int),
        ensures
            r@ == reminder_remaining_text(*self, now as int),
    {
        match self.time_remaining_at(now) {
            Some(d) => {
                let total = (d / NANOS_PER_SEC) as i64;
                if total < 60 {
                    num_unit(total, "s")
                } else if total < 3600 {
                    num_unit(total / 60, "m")
                } else if total < 86400 {
                    let mut r = num_unit(total / 3600, "h ");
                    let m = num_unit((total % 3600) / 60, "m");
                    r.append(m.as_str());
                    r
                } else {
                    let mut r = num_unit(total / 86400, "d ");
                    let h = num_unit((total % 86400) / 3600, "h");
                    r.append(h.as_str());
                    r
                }
            },
            None => string_from("now"),
        }
    }

    /// The time left now, for display: what `time_remaining_str_at` gives at
    /// the moment the clock reads.  Whatever it reads, a reminder that is not
    /// pending shows `now`.
    pub fn time_remaining_str(&self) -> (r: String)
        requires
            self.wf(),
        ensures
            exists|now: int|
                valid_time(now) && r@ == #[trigger] reminder_remaining_text(*self, now),
            self.status != ReminderStatus::Pending ==> r@ == "now"@,
    {
        let now = now_nanos();
        self.time_remaining_str_at(now)
    }
}

/// A pending reminder is due exactly when no time is left before it: the
/// check that fires reminders and the display of the time left agree.
pub proof fn law_due_iff_nothing_left(r: Reminder, now: int)
    requires
        r.status == ReminderStatus::Pending,
    ensures
        reminder_due(r, now) <==> reminder_remaining(r, now) is None,
{
}

/// The text of the time left names whole units of it: under a minute the
/// seconds; under an hour the whole minutes; under a day the whole hours
/// and the minutes past them; else the whole days and the hours past them.
/// Each pair of numbers reads back to within one of the smaller unit of the
/// seconds left.
pub proof fn law_remaining_text_names_whole_units(secs: int, big: int, small: int)
    requires
        secs > 0,
    ensures
        secs < 60 ==> remaining_text(secs) == decimal(secs) + "s"@,
        60 <= secs < 3600 && big * 60 <= secs < big * 60 + 60 ==> remaining_text(secs)
            == decimal(big) + "m"@,
        3600 <= secs < 86400 && 0 <= small < 60 && big * 3600 + small * 60 <= secs < big * 3600
            + small * 60 + 60 ==> remaining_text(secs) == decimal(big) + "h "@ + decimal(small)
            + "m"@,
        86400 <= secs && 0 <= small < 24 && big * 86400 + small * 3600 <= secs < big * 86400
            + small * 3600 + 3600 ==> remaining_text(secs) == decimal(big) + "d "@ + decimal(small)
            + "h"@,
{
    if 60 <= secs < 3600 && big * 60 <= secs < big * 60 + 60 {
        vstd::arithmetic::div_mod::lemma_fundamental_div_mod_converse(
            secs,
            60,
            big,
            secs - big * 60,
        );
    }
    if 3600 <= secs < 86400 && 0 <= small < 60 && big * 3600 + small * 60 <= secs < big * 3600
        + small * 60 + 60 {
        let rest = secs - big * 3600;
        vstd::arithmetic::div_mod::lemma_fundamental_div_mod_converse(secs, 3600, big, rest);
        vstd::arithmetic::div_mod::lemma_fundamental_div_mod_converse(
            rest,
            60,
            small,
            rest - small * 60,
        );
    }
    if 86400 <= secs && 0 <= small < 24 && big * 86400 + small * 3600 <= secs < big * 86400
        + small * 3600 + 3600 {
        let rest = secs - big * 86400;
        vstd::arithmetic::div_mod::lemma_fundamental_div_mod_converse(secs, 86400, big, rest);
        vstd::arithmetic::div_mod::lemma_fundamental_div_mod_converse(
            rest,
            3600,
            small,
            rest - small * 3600,
        );
    }
}

/// A pending reminder with `k` whole seconds (and a part of one) left
/// shows the text of `k` seconds; one whose time has come shows `now`.
pub proof fn law_reminder_text_counts_whole_seconds_left(r: Reminder, now: int, k: int)
    requires
        r.status == ReminderStatus::Pending,
    ensures
        k > 0 && k * 1_000_000_000 <= (r.remind_at as int) - now < (k + 1) * 1_000_000_000
            ==> reminder_remaining_text(r, now) == remaining_text(k),
        (r.remind_at as int) <= now ==> reminder_remaining_text(r, now) == "now"@,
{
    let d = (r.remind_at as int) - now;
    if k > 0 && k * 1_000_000_000 <= d < (k + 1) * 1_000_000_000 {
        vstd::arithmetic::div_mod::lemma_fundamental_div_mod_converse(
            d,
            1_000_000_000,
            k,
            d - k * 1_000_000_000,
        );
    }
}

/// A reminder that is not pending never fires and shows no time left.
pub proof fn law_settled_reminder_never_fires(r: Reminder, now: int)
    requires
        r.status != ReminderStatus::Pending,
    ensures
        !reminder_due(r, now),
        reminder_remaining(r, now) is None,
{
}

// ---------------------------------------------------------------------------
// Setting a reminder
// ---------------------------------------------------------------------------

/// The largest number of whole seconds a time span holds: `i64::MAX`
/// milliseconds.
pub const MAX_SPAN_SECS: i64 = 9_223_372_036_854_775;

/// The seconds `secs` stands for once converted to a signed 64-bit number:
/// values past `i64::MAX` wrap around to negative ones.
pub open spec fn signed_secs(secs: u64) -> int {
    if secs <= i64::MAX {
        secs as int
    } else {
        secs as int - 0x1_0000_0000_0000_0000
    }
}

/// When a reminder set `secs` seconds after `now` fires.
pub open spec fn remind_time(secs: u64, now: int) -> int {
    now + signed_secs(secs) * (NANOS_PER_SEC as int)
}

/// Whether setting a reminder `secs` seconds after `now` fails outright:
/// the span does not fit in a time span, or the moment lies outside the
/// calendar.
pub open spec fn remind_faults(secs: u64, now: int) -> bool {
    let w = signed_secs(secs);
    ||| w < -MAX_SPAN_SECS
    ||| w > MAX_SPAN_SECS
    ||| !valid_time(remind_time(secs, now))
}

/// When a reminder set `secs` seconds after `now` fires.
pub fn reminder_time(secs: u64, now: i128) -> (t: i128)
    requires
        valid_time(now as int),
        !remind_faults(secs, now as int),
    ensures
        t == remind_time(secs, now as int),
{
    let w: i128 = if secs <= 9_223_372_036_854_775_807u64 {
        secs as i128
    } else {
        secs as i128 - 18_446_744_073_709_551_616i128
    };
    now + w * NANOS_PER_SEC
}

/// Whether setting a reminder `secs` seconds after `now` fails outright.
pub fn remind_faults_exec(secs: u64, now: i128) -> (r: bool)
    requires
        valid_time(now as int),
    ensures
        r == remind_faults(secs, now as int),
{
    let w: i128 = if secs <= 9_223_372_036_854_775_807u64 {
        secs as i128
    } else {
        secs as i128 - 18_446_744_073_709_551_616i128
    };
    if w < -(MAX_SPAN_SECS as i128) || w > MAX_SPAN_SECS as i128 {
        return true;
    }
    let t = now + w * NANOS_PER_SEC;
    t < MIN_NANOS || t > MAX_NANOS
}

/// Whether setting a reminder with the duration `duration` at `now` fails
/// outright (see `duration_faults` and `remind_faults`).
pub open spec fn setting_faults(duration: Seq<char>, now: int) -> bool {
    ||| duration_faults(duration)
    ||| (duration_seconds(duration) matches Ok(secs) && remind_faults(secs, now))
}

/// Whether `r` is what setting a reminder `duration` from `now` with the
/// message `message` gives: the error of reading the duration, or a new
/// pending reminder, about the task that the message refers to (its message
/// then the text of the reference) or with the message itself.
pub open spec fn reminder_planned(
    duration: Seq<char>,
    message: Seq<char>,
    now: int,
    r: Result<Reminder, Error>,
) -> bool {
    match duration_seconds(duration) {
        Err(m) => r is Err && r->Err_0 is Other && r->Err_0->Other_0@ == m,
        Ok(secs) => r is Ok && {
            let x = r->Ok_0;
            &&& x.id == 0
            &&& x.remind_at == remind_time(secs, now)
            &&& x.status == ReminderStatus::Pending
            &&& x.created_at == now
            &&& match task_ref_of(message) {
                Some((p, id)) => {
                    &&& x.message@ == task_ref_text(p, id)
                    &&& x.project_id is Some
                    &&& x.project_id->0@ == p
                    &&& x.task_id == Some(id)
                },
                None => x.message@ == message && x.project_id is None && x.task_id is None,
            }
        },
    }
}

/// The reminder that `remind <duration> <message>` stores when set at `now`.
pub fn plan_reminder(duration: &str, message: &str, now: i128) -> (r: Result<Reminder, Error>)
    requires
        valid_time(now as int),
        !setting_faults(duration@, now as int),
    ensures
        reminder_planned(duration@, message@, now as int, r),
        r matches Ok(x) ==> x.wf(),
{
    let secs = match parse_duration(duration) {
        Ok(s) => s,
        Err(e) => {
            return Err(e);
        },
    };
    let at = reminder_time(secs, now);
    match TaskRef::parse(message) {
        Some(t) => Ok(Reminder::for_task_at(t, at, now)),
        None => Ok(Reminder::new_at(message, at, now)),
    }
}

/// The reminder as `plan_reminder` gives it, after testing that setting it
/// does not fail outright; `None` when it does.
pub fn plan_reminder_checked(duration: &str, message: &str, now: i128) -> (r: Option<
    Result<Reminder, Error>,
>)
    requires
        valid_time(now as int),
    ensures
        r is None <==> setting_faults(duration@, now as int),
        r matches Some(res) ==> reminder_planned(duration@, message@, now as int, res),
{
    if duration_faults_exec(duration) {
        return None;
    }
    match parse_duration(duration) {
        Ok(secs) => {
            if remind_faults_exec(secs, now) {
                return None;
            }
        },
        Err(_) => {},
    }
    Some(plan_reminder(duration, message, now))
}

// ---------------------------------------------------------------------------
// Firing reminders
// ---------------------------------------------------------------------------

/// The positions, in order, of the reminders among the first `n` of `rs`
/// that are due at `now`.
pub open spec fn due_positions(rs: Seq<Reminder>, now: int, n: int) -> Seq<int>
    decreases n,
{
    if n <= 0 {
        Seq::empty()
    } else {
        let before = due_positions(rs, now, n - 1);
        if reminder_due(rs[n - 1], now) {
            before.push(n - 1)
        } else {
            before
        }
    }
}

/// The positions, in order, of the reminders of `rs` that are due at `now`:
/// those the background service notifies of and then marks fired.
pub fn reminders_to_fire(rs: &Vec<Reminder>, now: i128) -> (r: Vec<usize>)
    ensures
        r@.map_values(|i: usize| i as int) == due_positions(rs@, now as int, rs@.len() as int),
{
    let mut r: Vec<usize> = Vec::new();
    let mut i: usize = 0;
    while i < rs.len()
        invariant
            i <= rs@.len(),
            r@.map_values(|k: usize| k as int) == due_positions(rs@, now as int, i as int),
        decreases rs@.len() - i,
    {
        let ghost before = r@;
        if rs[i].should_fire_at(now) {
            r.push(i);
            assert(r@.map_values(|k: usize| k as int) =~= before.map_values(|k: usize| k as int).push(
                i as int,
            ));
        }
        i = i + 1;
    }
    r
}

/// Whether a position is listed among the due positions: exactly the due
/// reminders are fired, each once, in order.
pub proof fn law_fired_exactly_the_due(rs: Seq<Reminder>, now: int, n: int)
    requires
        0 <= n <= rs.len(),
    ensures
        forall|k: int| 0 <= k < n ==> (due_positions(rs, now, n).contains(k) <==> reminder_due(
            #[trigger] rs[k],
            now,
        )),
        forall|a: int, b: int|
            0 <= a < b < due_positions(rs, now, n).len() ==> due_positions(rs, now, n)[a]
                < due_positions(rs, now, n)[b],
        forall|a: int|
            0 <= a < due_positions(rs, now, n).len() ==> 0 <= #[trigger] due_positions(
                rs,
                now,
                n,
            )[a] < n,
    decreases n,
{
    if n > 0 {
        law_fired_exactly_the_due(rs, now, n - 1);
        let before = due_positions(rs, now, n - 1);
        assert forall|k: int| 0 <= k < n implies (due_positions(rs, now, n).contains(k)
            <==> reminder_due(#[trigger] rs[k], now)) by {
            if k < n - 1 {
                if reminder_due(rs[n - 1], now) {
                    assert(due_positions(rs, now, n) == before.push(n - 1));
                    if before.contains(k) {
                        let j = choose|j: int| 0 <= j < before.len() && before[j] == k;
                        assert(due_positions(rs, now, n)[j] == k);
                    }
                    if due_positions(rs, now, n).contains(k) {
                        let j = choose|j: int|
                            0 <= j < due_positions(rs, now, n).len() && due_positions(
                                rs,
                                now,
                                n,
                            )[j] == k;
                        assert(j < before.len());
                        assert(before[j] == k);
                    }
                }
            } else {
                if reminder_due(rs[n - 1], now) {
                    assert(due_positions(rs, now, n)[before.len() as int] == n - 1);
                } else {
                    if before.contains(n - 1) {
                        let j = choose|j: int| 0 <= j < before.len() && before[j] == n - 1;
                        assert(0 <= before[j] < n - 1);
                    }
                }
            }
        }
    }
}

} // verus!
