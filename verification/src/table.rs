//! The cells and lines of the task table and of the dashboard.

use vstd::prelude::*;
use vstd::string::StringSliceAdditionalSpecFns;
use vstd::utf8::{decode_utf8, encode_utf8, encode_utf8_decode_utf8, is_char_boundary};

use crate::clock::{format_month_day, month_day_text, valid_time};
use crate::task::{
    priority_name, status_name, task_due_on_day_of, task_overdue, Priority, Task, TaskStatus,
};
use crate::text::{byte_len, chars_of, decimal, decimal_string, push_char, string_from, string_of};

verus! {

/// Width of the id column.
pub const ID_W: usize = 4;

/// Width of the status column.
pub const STATUS_W: usize = 14;

/// Width of the priority column.
pub const PRIORITY_W: usize = 10;

/// Width of the due date column.
pub const DUE_W: usize = 10;

/// Narrowest title column.
pub const TITLE_MIN: usize = 30;

/// `n` copies of `c`.
pub open spec fn repeat(c: char, n: nat) -> Seq<char> {
    Seq::new(n, |_i: int| c)
}

/// `s` cut to at most `max` characters, the last kept one replaced by `…`
/// when it is cut.
pub open spec fn truncated(s: Seq<char>, max: nat) -> Seq<char> {
    if s.len() <= max {
        s
    } else {
        s.take(if max >= 1 { max - 1 } else { 0 }) + seq!['…']
    }
}

/// `s` followed by spaces up to `width` characters.
pub open spec fn padded(s: Seq<char>, width: nat) -> Seq<char> {
    if s.len() >= width {
        s
    } else {
        s + repeat(' ', (width - s.len()) as nat)
    }
}

/// The width of the title column on a terminal `cols` columns wide.
pub open spec fn title_width_for(cols: nat) -> nat {
    let overhead = (ID_W + STATUS_W + PRIORITY_W + DUE_W + 6) as nat;
    let rest: nat = if cols >= overhead { (cols - overhead) as nat } else { 0 };
    if rest >= TITLE_MIN { rest } else { TITLE_MIN as nat }
}

/// The width of the title column on a terminal `cols` columns wide: what
/// the other columns leave, but at least `TITLE_MIN`.
pub fn title_width(cols: usize) -> (r: usize)
    ensures
        r == title_width_for(cols as nat),
{
    let overhead = ID_W + STATUS_W + PRIORITY_W + DUE_W + 6;
    let rest = cols.saturating_sub(overhead);
    if rest >= TITLE_MIN {
        rest
    } else {
        TITLE_MIN
    }
}

/// A cut text never exceeds its width in characters (for a width of at
/// least one), and keeps the text's beginning: the whole text when it fits,
/// otherwise its first characters followed by `…`.
pub proof fn law_truncation_fits(s: Seq<char>, max: nat)
    requires
        max >= 1,
    ensures
        truncated(s, max).len() <= max,
        s.len() <= max ==> truncated(s, max) == s,
        s.len() > max ==> truncated(s, max) == s.take(max - 1) + seq!['…'],
{
}

/// The table takes the terminal's whole width when the terminal is wide
/// enough for the narrowest title column, and never makes the title column
/// narrower than that.
pub proof fn law_table_fits_terminal(cols: nat)
    ensures
        title_width_for(cols) >= TITLE_MIN,
        cols >= (ID_W + STATUS_W + PRIORITY_W + DUE_W + 6 + TITLE_MIN) ==> title_width_for(cols) + (
        ID_W + STATUS_W + PRIORITY_W + DUE_W + 6) == cols,
{
}

/// `s` cut to at most `max_len` characters, ending with `…` when cut.
pub fn truncate(s: &str, max_len: usize) -> (r: String)
    ensures
        r@ == truncated(s@, max_len as nat),
{
    let cs = chars_of(s);
    if cs.len() <= max_len {
        return string_from(s);
    }
    let keep = max_len.saturating_sub(1);
    let mut r = String::new();
    let mut i: usize = 0;
    while i < keep
        invariant
            keep < cs@.len(),
            i <= keep,
            r@ == cs@.take(i as int),
        decreases keep - i,
    {
        push_char(&mut r, cs[i]);
        assert(cs@.take(i as int).push(cs@[i as int]) =~= cs@.take(i + 1));
        i = i + 1;
    }
    push_char(&mut r, '…');
    r
}

/// `s` followed by spaces up to `width` characters.
pub fn pad(s: &str, width: usize) -> (r: String)
    ensures
        r@ == padded(s@, width as nat),
{
    let visible = s.unicode_len();
    if visible >= width {
        return string_from(s);
    }
    let mut r = string_from(s);
    let mut i: usize = visible;
    while i < width
        invariant
            visible <= i <= width,
            visible == s@.len(),
            r@ == s@ + repeat(' ', (i - visible) as nat),
        decreases width - i,
    {
        push_char(&mut r, ' ');
        assert(s@ + repeat(' ', (i - visible) as nat).push(' ') =~= s@ + repeat(
            ' ',
            (i + 1 - visible) as nat,
        ));
        i = i + 1;
    }
    r
}

/// `n` copies of `c`.
pub fn repeat_char(c: char, n: usize) -> (r: String)
    ensures
        r@ == repeat(c, n as nat),
{
    let mut r = String::new();
    let mut i: usize = 0;
    while i < n
        invariant
            i <= n,
            r@ == repeat(c, i as nat),
        decreases n - i,
    {
        push_char(&mut r, c);
        assert(repeat(c, i as nat).push(c) =~= repeat(c, (i + 1) as nat));
        i = i + 1;
    }
    r
}

/// A border line of the task table: `left`, then the five column bars of
/// `─` separated by `mid`, then `right`.
pub open spec fn border_text(left: char, mid: char, right: char, title_w: nat) -> Seq<char> {
    seq![left] + repeat('─', ID_W as nat) + seq![mid] + repeat('─', title_w + 2) + seq![mid]
        + repeat('─', STATUS_W as nat) + seq![mid] + repeat('─', PRIORITY_W as nat) + seq![mid]
        + repeat('─', DUE_W as nat) + seq![right]
}

/// A border line of the task table, such as `┌────┬──…┐`.
pub fn border(left: char, mid: char, right: char, title_w: usize) -> (r: String)
    requires
        title_w + 2 <= usize::MAX,
    ensures
        r@ == border_text(left, mid, right, title_w as nat),
{
    let mut r = String::new();
    push_char(&mut r, left);
    let a = repeat_char('─', ID_W);
    r.append(a.as_str());
    push_char(&mut r, mid);
    let b = repeat_char('─', title_w + 2);
    r.append(b.as_str());
    push_char(&mut r, mid);
    let c = repeat_char('─', STATUS_W);
    r.append(c.as_str());
    push_char(&mut r, mid);
    let d = repeat_char('─', PRIORITY_W);
    r.append(d.as_str());
    push_char(&mut r, mid);
    let e = repeat_char('─', DUE_W);
    r.append(e.as_str());
    push_char(&mut r, right);
    r
}

/// The plain cells of a row of the task table (the due cell comes from
/// `due_cell_at`).
pub struct TaskRow {
    /// The id, padded.
    pub id: String,
    /// The description mark and the title, cut and padded to the title
    /// column.
    pub title: String,
    /// The status symbol and name, padded.
    pub status: String,
    /// The priority symbol and name, padded.
    pub priority: String,
}

/// The symbol of a status.
pub open spec fn status_emoji(s: TaskStatus) -> Seq<char> {
    match s {
        TaskStatus::Todo => "○"@,
        TaskStatus::InProgress => "▶"@,
        TaskStatus::Done => "✓"@,
        TaskStatus::Cancelled => "✗"@,
    }
}

/// The symbol of a priority.
pub open spec fn priority_emoji(p: Priority) -> Seq<char> {
    match p {
        Priority::Low => "🟢"@,
        Priority::Normal => "⚪"@,
        Priority::High => "🟡"@,
        Priority::Urgent => "🔴"@,
    }
}

/// The title cell of a task: `✎` when it has a description (a space
/// otherwise), a space, then the title cut to the column less two.
pub open spec fn title_cell(t: Task, title_w: nat) -> Seq<char> {
    let mark = if t.description is Some { "✎"@ } else { " "@ };
    padded(mark + " "@ + truncated(t.title@, if title_w >= 2 { (title_w - 2) as nat } else { 0 }), title_w)
}

/// The cells of a task's row in a table whose title column is `title_w`
/// wide.
pub fn task_row(t: &Task, title_w: usize) -> (r: TaskRow)
    ensures
        r.id@ == padded(decimal(t.id as int), 2),
        r.title@ == title_cell(*t, title_w as nat),
        r.status@ == padded(status_emoji(t.status) + " "@ + status_name(t.status), (STATUS_W
            - 2) as nat),
        r.priority@ == padded(priority_emoji(t.priority) + " "@ + priority_name(t.priority), (
        PRIORITY_W - 2) as nat),
{
    let id = decimal_string(t.id as i64);
    let mut title = string_from(if t.description.is_some() { "✎" } else { " " });
    title.append(" ");
    let cut = truncate(t.title.as_str(), title_w.saturating_sub(2));
    title.append(cut.as_str());
    let mut status = string_from(t.status.emoji());
    status.append(" ");
    status.append(t.status.as_str());
    let mut priority = string_from(t.priority.emoji());
    priority.append(" ");
    priority.append(t.priority.as_str());
    TaskRow {
        id: pad(id.as_str(), 2),
        title: pad(title.as_str(), title_w),
        status: pad(status.as_str(), STATUS_W - 2),
        priority: pad(priority.as_str(), PRIORITY_W - 2),
    }
}

/// How the due date cell of a task is coloured.
#[derive(Debug, Clone, Copy, PartialEq, Eq, Structural)]
pub enum DueTone {
    /// The task is overdue.
    Overdue,
    /// The task is due today.
    Today,
    /// Neither.
    Plain,
}

/// The text of a task's due cell before padding: `Mon DD`, or `-` without
/// a due date.
pub open spec fn due_text(t: Task) -> Seq<char> {
    match t.due_date {
        Some(d) => month_day_text(d as int),
        None => "-"@,
    }
}

/// The tone of a task's due cell at `now`: overdue first, then due today.
pub open spec fn due_tone(t: Task, now: int) -> DueTone {
    if task_overdue(t, now) {
        DueTone::Overdue
    } else if task_due_on_day_of(t, now) {
        DueTone::Today
    } else {
        DueTone::Plain
    }
}

/// The due cell of a task's row at `now`: its text, padded, and its tone.
pub fn due_cell_at(t: &Task, now: i128) -> (r: (String, DueTone))
    requires
        t.wf(),
        valid_time(now as int),
    ensures
        r.0@ == padded(due_text(*t), (DUE_W - 2) as nat),
        r.1 == due_tone(*t, now as int),
{
    let text = match t.due_date {
        Some(d) => format_month_day(d),
        None => string_from("-"),
    };
    let cell = pad(text.as_str(), DUE_W - 2);
    let tone = if t.is_overdue_at(now) {
        DueTone::Overdue
    } else if t.is_due_today_at(now) {
        DueTone::Today
    } else {
        DueTone::Plain
    };
    (cell, tone)
}

/// Whether a table of these tasks shows the description mark, and so the
/// note explaining it.
pub fn any_description(tasks: &Vec<Task>) -> (r: bool)
    ensures
        r <==> exists|i: int| 0 <= i < tasks@.len() && (#[trigger] tasks@[i]).description is Some,
{
    let mut i: usize = 0;
    while i < tasks.len()
        invariant
            i <= tasks@.len(),
            forall|j: int| 0 <= j < i ==> (#[trigger] tasks@[j]).description is None,
        decreases tasks@.len() - i,
    {
        if tasks[i].description.is_some() {
            return true;
        }
        i = i + 1;
    }
    false
}

/// `s` cut, for the dashboard, to `max_len` bytes of UTF-8 less three,
/// followed by `...`, when it is longer than `max_len` bytes.
pub open spec fn truncated_bytes(s: Seq<char>, max_len: nat) -> Seq<char> {
    if encode_utf8(s).len() > max_len {
        decode_utf8(encode_utf8(s).take(max_len - 3)) + "..."@
    } else {
        s
    }
}

/// Whether the dashboard can cut `s` at `max_len` bytes less three: the
/// cut must fall between characters (and `max_len` must be at least three).
pub open spec fn can_cut_bytes(s: Seq<char>, max_len: nat) -> bool {
    encode_utf8(s).len() > max_len ==> max_len >= 3 && is_char_boundary(
        encode_utf8(s),
        max_len - 3,
    )
}

/// `s` cut to `max_len` bytes less three and followed by `...` when it is
/// longer than `max_len` bytes, as the dashboard shows titles and messages.
pub fn truncate_bytes(s: &str, max_len: usize) -> (r: String)
    requires
        can_cut_bytes(s@, max_len as nat),
    ensures
        r@ == truncated_bytes(s@, max_len as nat),
{
    if byte_len(s) > max_len {
        let (a, _b) = s.split_at(max_len - 3);
        proof {
            encode_utf8_decode_utf8(a@);
            assert(a.spec_bytes() == encode_utf8(a@));
            assert(s.spec_bytes() == encode_utf8(s@));
            assert(encode_utf8(s@).take(max_len - 3) =~= encode_utf8(s@).subrange(0, max_len - 3));
            assert(decode_utf8(encode_utf8(s@).take(max_len - 3)) == a@);
        }
        let mut r = a.to_owned();
        r.append("...");
        r
    } else {
        string_from(s)
    }
}

} // verus!
