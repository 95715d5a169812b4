//! The order in which a project's tasks are listed: by status (in the
//! alphabetical order of the stored names: cancelled, done, in progress, to
//! do), then the most urgent priority first, then by id.

use vstd::prelude::*;

use crate::task::{priority_rank, Task, TaskStatus};

verus! {

/// The place of a status in the list: the alphabetical order of its stored
/// name.
pub open spec fn status_rank(s: TaskStatus) -> int {
    match s {
        TaskStatus::Cancelled => 0,
        TaskStatus::Done => 1,
        TaskStatus::InProgress => 2,
        TaskStatus::Todo => 3,
    }
}

/// Whether task `a` may be listed before task `b`: its status comes first,
/// or the status is the same and its priority is more urgent, or both are
/// the same and its id is not greater.
pub open spec fn listed_before(a: Task, b: Task) -> bool {
    ||| status_rank(a.status) < status_rank(b.status)
    ||| (status_rank(a.status) == status_rank(b.status) && priority_rank(a.priority)
        > priority_rank(b.priority))
    ||| (status_rank(a.status) == status_rank(b.status) && priority_rank(a.priority)
        == priority_rank(b.priority) && a.id <= b.id)
}

/// Whether the tasks are in listing order.
pub open spec fn in_listing_order(ts: Seq<Task>) -> bool {
    forall|i: int, j: int| 0 <= i < j < ts.len() ==> listed_before(#[trigger] ts[i], #[trigger] ts[j])
}

fn status_place(s: TaskStatus) -> (r: u8)
    ensures
        r == status_rank(s),
{
    match s {
        TaskStatus::Cancelled => 0,
        TaskStatus::Done => 1,
        TaskStatus::InProgress => 2,
        TaskStatus::Todo => 3,
    }
}

/// Whether `a` goes strictly after `b` in listing order.
fn goes_after(a: &Task, b: &Task) -> (r: bool)
    ensures
        r == !listed_before(*a, *b),
{
    let sa = status_place(a.status);
    let sb = status_place(b.status);
    let pa = a.priority.order();
    let pb = b.priority.order();
    if sa != sb {
        sa > sb
    } else if pa != pb {
        pa < pb
    } else {
        a.id > b.id
    }
}

/// The tasks in listing order: the same tasks, each as often as given.
pub fn sort_tasks(tasks: &Vec<Task>) -> (r: Vec<Task>)
    ensures
        r@.to_multiset() == tasks@.to_multiset(),
        in_listing_order(r@),
{
    let mut r: Vec<Task> = Vec::new();
    let mut i: usize = 0;
    assert(r@ =~= tasks@.take(0));
    while i < tasks.len()
        invariant
            i <= tasks@.len(),
            r@.to_multiset() == tasks@.take(i as int).to_multiset(),
            in_listing_order(r@),
        decreases tasks@.len() - i,
    {
        let t = tasks[i].duplicate();
        let mut j: usize = 0;
        while j < r.len() && !goes_after(&r[j], &t)
            invariant
                j <= r@.len(),
                forall|k: int| 0 <= k < j ==> listed_before(#[trigger] r@[k], t),
            decreases r@.len() - j,
        {
            j = j + 1;
        }
        let ghost before = r@;
        r.insert(j, t);
        proof {
            assert(r@ == before.insert(j as int, t));
            assert(tasks@.take(i + 1) =~= tasks@.take(i as int).push(tasks@[i as int]));
            vstd::seq_lib::to_multiset_insert(before, j as int, t);
            vstd::seq_lib::to_multiset_build(tasks@.take(i as int), tasks@[i as int]);
            assert forall|a: int, b: int| 0 <= a < b < r@.len() implies listed_before(
                #[trigger] r@[a],
                #[trigger] r@[b],
            ) by {
                if b < j {
                    assert(r@[a] == before[a] && r@[b] == before[b]);
                } else if b == j {
                    assert(r@[a] == before[a]);
                } else if a < j {
                    assert(r@[a] == before[a] && r@[b] == before[b - 1]);
                    assert(listed_before(before[a], t));
                    assert(!listed_before(before[j as int], t));
                    assert(listed_before(before[j as int], before[b - 1]) || j == b - 1);
                } else if a == j {
                    assert(r@[b] == before[b - 1]);
                    assert(!listed_before(before[j as int], t));
                    assert(listed_before(before[j as int], before[b - 1]) || j == b - 1);
                } else {
                    assert(r@[a] == before[a - 1] && r@[b] == before[b - 1]);
                }
            }
        }
        i = i + 1;
    }
    proof {
        assert(tasks@.take(tasks@.len() as int) =~= tasks@);
    }
    r
}

} // verus!
