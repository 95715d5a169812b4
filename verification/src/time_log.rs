//! Time spent on tasks.

use vstd::prelude::*;

use crate::clock::{now_nanos, valid_time};
use crate::text::{decimal, decimal_string, push_char, string_from};

verus! {

/// `a` divided by the positive `b`, rounded toward zero.
pub open spec fn tdiv(a: int, b: int) -> int {
    if a >= 0 {
        a / b
    } else {
        -((-a) / b)
    }
}

/// The remainder of `a` divided by the positive `b`, with the sign of `a`.
pub open spec fn tmod(a: int, b: int) -> int {
    a - b * tdiv(a, b)
}

/// A number written with at least two digits, as `{:02}` writes it.
pub open spec fn two_digits(n: int) -> Seq<char> {
    if 0 <= n < 10 {
        seq!['0'] + decimal(n)
    } else {
        decimal(n)
    }
}

/// A span of `secs` seconds written as `HH:MM:SS`.
pub open spec fn clock_text(secs: int) -> Seq<char> {
    two_digits(tdiv(secs, 3600)) + ":"@ + two_digits(tdiv(tmod(secs, 3600), 60)) + ":"@
        + two_digits(tmod(secs, 60))
}

/// A span of `secs` seconds written for people: `45s`, `3m 20s` or `2h 5m`.
pub open spec fn human_text(secs: int) -> Seq<char> {
    if secs < 60 {
        decimal(secs) + "s"@
    } else if secs < 3600 {
        decimal(secs / 60) + "m "@ + decimal(secs % 60) + "s"@
    } else {
        decimal(secs / 3600) + "h "@ + decimal((secs % 3600) / 60) + "m"@
    }
}

/// `a` divided by the positive `b`, rounded toward zero.
fn tdiv_exec(a: i64, b: i64) -> (r: i64)
    requires
        a > i64::MIN,
        b > 0,
    ensures
        r == tdiv(a as int, b as int),
{
    if a >= 0 {
        a / b
    } else {
        -((-a) / b)
    }
}

/// The remainder of `a` divided by the positive `b`, with the sign of `a`.
fn tmod_exec(a: i64, b: i64) -> (r: i64)
    requires
        a > i64::MIN,
        b > 0,
    ensures
        r == tmod(a as int, b as int),
{
    let q = tdiv_exec(a, b);
    proof {
        let ai = a as int;
        let bi = b as int;
        let qi = q as int;
        if ai >= 0 {
            vstd::arithmetic::div_mod::lemma_fundamental_div_mod(ai, bi);
            assert(0 <= ai - bi * qi < bi);
            assert(0 <= bi * qi <= ai);
        } else {
            vstd::arithmetic::div_mod::lemma_fundamental_div_mod(-ai, bi);
            assert(0 <= -ai - bi * (-qi) < bi);
            assert(ai <= bi * qi <= 0) by (nonlinear_arith)
                requires
                    0 <= -ai - bi * (-qi),
                    -ai - bi * (-qi) < bi,
                    bi > 0,
                    ai < 0,
            ;
        }
    }
    a - b * q
}

/// Whole seconds in a span of `d` nanoseconds, rounded toward zero.
pub open spec fn whole_seconds(d: int) -> int {
    tdiv(d, 1_000_000_000)
}

/// The span between two representable points in time, in whole seconds
/// rounded toward zero.
fn span_seconds(from: i128, to: i128) -> (r: i64)
    requires
        valid_time(from as int),
        valid_time(to as int),
    ensures
        r == whole_seconds(to - from),
{
    let d: i128 = to - from;
    if d >= 0 {
        let q = (d as u128) / 1_000_000_000;
        q as i64
    } else {
        let q = ((-d) as u128) / 1_000_000_000;
        -(q as i64)
    }
}

/// `n` written with at least two digits.
fn two_digits_exec(n: i64) -> (r: String)
    ensures
        r@ == two_digits(n as int),
{
    let d = decimal_string(n);
    if 0 <= n && n < 10 {
        let mut r = String::new();
        push_char(&mut r, '0');
        r.append(d.as_str());
        assert(r@ =~= seq!['0'] + decimal(n as int));
        r
    } else {
        d
    }
}

/// A period of time spent on a task.  Points in time are nanoseconds since
/// the epoch.
#[derive(Debug, Clone)]
pub struct TimeLog {
    /// Identifier given by the storage (0 until stored).
    pub id: i32,
    /// Task the time was spent on.
    pub task_id: i32,
    /// Project of the task.
    pub project_id: String,
    /// When the timer started.
    pub started_at: i128,
    /// When the timer stopped, if it has.
    pub ended_at: Option<i128>,
    /// Whole seconds between start and stop, once stopped.
    pub duration_seconds: Option<i64>,
    /// Whether this was a pomodoro session.
    pub is_pomodoro: bool,
}

/// The time elapsed on a log at `now`, in nanoseconds: up to its end when
/// stopped, up to `now` when running.
pub open spec fn log_elapsed(l: TimeLog, now: int) -> int {
    match l.ended_at {
        Some(end) => end as int - l.started_at as int,
        None => now - l.started_at as int,
    }
}

impl TimeLog {
    /// Whether the points in time of the log are representable.
    pub open spec fn wf(&self) -> bool {
        &&& valid_time(self.started_at as int)
        &&& match self.ended_at {
            Some(e) => valid_time(e as int),
            None => true,
        }
    }

    /// A running log for a task, started at `now`.
    pub fn start_at(project_id: &str, task_id: i32, now: i128) -> (l: TimeLog)
        ensures
            l.id == 0,
            l.task_id == task_id,
            l.project_id@ == project_id@,
            l.started_at == now,
            l.ended_at is None,
            l.duration_seconds is None,
            !l.is_pomodoro,
    {
        TimeLog {
            id: 0,
            task_id,
            project_id: string_from(project_id),
            started_at: now,
            ended_at: None,
            duration_seconds: None,
            is_pomodoro: false,
        }
    }

    /// A running log for a task, started now.
    pub fn start(project_id: &str, task_id: i32) -> (l: TimeLog)
        ensures
            l.wf(),
            l.id == 0,
            l.task_id == task_id,
            l.project_id@ == project_id@,
            valid_time(l.started_at as int),
            l.ended_at is None,
            l.duration_seconds is None,
            !l.is_pomodoro,
    {
        let now = now_nanos();
        TimeLog::start_at(project_id, task_id, now)
    }

    /// A running pomodoro session for a task, started now.
    pub fn pomodoro(project_id: &str, task_id: i32) -> (l: TimeLog)
        ensures
            l.wf(),
            l.id == 0,
            l.task_id == task_id,
            l.project_id@ == project_id@,
            valid_time(l.started_at as int),
            l.ended_at is None,
            l.duration_seconds is None,
            l.is_pomodoro,
    {
        let mut l = TimeLog::start(project_id, task_id);
        l.is_pomodoro = true;
        l
    }

    /// Stops the timer at `now`, recording the whole seconds elapsed.
    pub fn stop_at(&mut self, now: i128)
        requires
            valid_time(old(self).started_at as int),
            valid_time(now as int),
        ensures
            final(self).ended_at == Some(now),
            final(self).duration_seconds == Some(
                whole_seconds(now - old(self).started_at) as i64,
            ),
            *final(self) == (TimeLog {
                ended_at: Some(now),
                duration_seconds: final(self).duration_seconds,
                ..*old(self)
            }),
    {
        let secs = span_seconds(self.started_at, now);
        self.ended_at = Some(now);
        self.duration_seconds = Some(secs);
    }

    /// Stops the timer now.
    pub fn stop(&mut self)
        requires
            valid_time(old(self).started_at as int),
        ensures
            final(self).ended_at is Some,
            valid_time(final(self).ended_at->0 as int),
            final(self).duration_seconds == Some(
                whole_seconds(final(self).ended_at->0 - old(self).started_at) as i64,
            ),
            *final(self) == (TimeLog {
                ended_at: final(self).ended_at,
                duration_seconds: final(self).duration_seconds,
                ..*old(self)
            }),
    {
        let now = now_nanos();
        self.stop_at(now);
    }

    /// Whether the timer is still running.
    pub fn is_running(&self) -> (r: bool)
        ensures
            r == self.ended_at is None,
    {
        self.ended_at.is_none()
    }

    /// The time elapsed at `now`, in nanoseconds.
    pub fn elapsed_at(&self, now: i128) -> (r: i128)
        requires
            self.wf(),
            valid_time(now as int),
        ensures
            r == log_elapsed(*self, now as int),
    {
        match self.ended_at {
            Some(end) => end as i128 - self.started_at as i128,
            None => now as i128 - self.started_at as i128,
        }
    }

    /// The time elapsed, in nanoseconds: up to the stop when stopped, up to
    /// now (whatever the clock reads) when running.
    pub fn elapsed(&self) -> (r: i128)
        requires
            self.wf(),
        ensures
            exists|now: int| valid_time(now) && r == #[trigger] log_elapsed(*self, now),
            self.ended_at matches Some(end) ==> r == end - self.started_at,
    {
        match self.ended_at {
            Some(end) => {
                assert(log_elapsed(*self, 0) == end - self.started_at);
                end as i128 - self.started_at as i128
            },
            None => {
                let now = now_nanos();
                assert(log_elapsed(*self, now as int) == now - self.started_at);
                now as i128 - self.started_at as i128
            },
        }
    }

    /// The whole seconds elapsed at `now`, rounded toward zero.
    pub fn elapsed_seconds_at(&self, now: i128) -> (r: i64)
        requires
            self.wf(),
            valid_time(now as int),
        ensures
            r == whole_seconds(log_elapsed(*self, now as int)),
    {
        match self.ended_at {
            Some(end) => span_seconds(self.started_at, end),
            None => span_seconds(self.started_at, now),
        }
    }

    /// The whole seconds elapsed, rounded toward zero.
    pub fn elapsed_seconds(&self) -> (r: i64)
        requires
            self.wf(),
        ensures
            exists|now: int|
                valid_time(now) && r == whole_seconds(#[trigger] log_elapsed(*self, now)),
            self.ended_at matches Some(end) ==> r == whole_seconds(end - self.started_at),
    {
        let now = now_nanos();
        self.elapsed_seconds_at(now)
    }

    /// The time elapsed at `now`, as `HH:MM:SS`.
    pub fn elapsed_str_at(&self, now: i128) -> (r: String)
        requires
            self.wf(),
            valid_time(now as int),
        ensures
            r@ == clock_text(whole_seconds(log_elapsed(*self, now as int))),
    {
        let total = self.elapsed_seconds_at(now);
        let hours = tdiv_exec(total, 3600);
        let rest = tmod_exec(total, 3600);
        let mins = tdiv_exec(rest, 60);
        let secs = tmod_exec(total, 60);
        let mut r = two_digits_exec(hours);
        r.append(":");
        let m = two_digits_exec(mins);
        r.append(m.as_str());
        r.append(":");
        let s = two_digits_exec(secs);
        r.append(s.as_str());
        r
    }

    /// The time elapsed, as `HH:MM:SS`.
    pub fn elapsed_str(&self) -> (r: String)
        requires
            self.wf(),
        ensures
            exists|now: int|
                valid_time(now) && r@ == clock_text(
                    whole_seconds(#[trigger] log_elapsed(*self, now)),
                ),
            self.ended_at matches Some(end) ==> r@ == clock_text(whole_seconds(end - self.started_at)),
    {
        let now = now_nanos();
        self.elapsed_str_at(now)
    }

    /// The time elapsed at `now`, for people: `45s`, `3m 20s` or `2h 5m`.
    pub fn duration_human_at(&self, now: i128) -> (r: String)
        requires
            self.wf(),
            valid_time(now as int),
        ensures
            r@ == human_text(whole_seconds(log_elapsed(*self, now as int))),
    {
        let total = self.elapsed_seconds_at(now);
        if total < 60 {
            let mut r = decimal_string(total);
            r.append("s");
            r
        } else if total < 3600 {
            let mut r = decimal_string(total / 60);
            r.append("m ");
            let s = decimal_string(total % 60);
            r.append(s.as_str());
            r.append("s");
            r
        } else {
            let mut r = decimal_string(total / 3600);
            r.append("h ");
            let m = decimal_string((total % 3600) / 60);
            r.append(m.as_str());
            r.append("m");
            r
        }
    }

    /// The time elapsed, for people (see `duration_human_at`).
    pub fn duration_human(&self) -> (r: String)
        requires
            self.wf(),
        ensures
            exists|now: int|
                valid_time(now) && r@ == human_text(
                    whole_seconds(#[trigger] log_elapsed(*self, now)),
                ),
            self.ended_at matches Some(end) ==> r@ == human_text(whole_seconds(end - self.started_at)),
    {
        let now = now_nanos();
        self.duration_human_at(now)
    }
}

/// Once a log is stopped, the seconds it records are the seconds it shows
/// as elapsed, whatever the time.
pub proof fn law_stopped_log_records_elapsed(l: TimeLog, now: int)
    requires
        l.ended_at is Some,
        l.duration_seconds == Some(whole_seconds(l.ended_at->0 - l.started_at) as i64),
    ensures
        l.duration_seconds == Some(whole_seconds(log_elapsed(l, now)) as i64),
{
}

} // verus!
