//! Aggregate metrics over the task list.
//!
//! The counts behind the session's task report: totals, per-priority
//! tallies, the most common priority, and how many tasks are still due
//! after a given day. Percentages are left to the presentation layer.

use crate::dates::{mdy_day, mdy_day_number};
use crate::gamification::{
    completed_count, lemma_completed_count_take_succ, lemma_total_points_prefix_le,
    lemma_total_points_take_succ, total_points, PriorityLevel, Task,
};
use vstd::prelude::*;

verus! {

/// How many tasks carry the priority `p`.
pub open spec fn priority_count(tasks: Seq<Task>, p: PriorityLevel) -> int
    decreases tasks.len(),
{
    if tasks.len() == 0 {
        0
    } else {
        priority_count(tasks.drop_last(), p) + (if tasks.last().priority == p {
            1int
        } else {
            0int
        })
    }
}

/// Whether a task is upcoming: its due date, written "MM.DD.YYYY", parses
/// and lies strictly after the day numbered `current_day`. A due date in
/// any other form is simply not upcoming.
pub open spec fn is_upcoming(t: Task, current_day: int) -> bool {
    &&& mdy_day(t.due_date@) is Some
    &&& mdy_day(t.due_date@)->Some_0 > current_day
}

/// How many tasks are upcoming relative to the day numbered `current_day`.
pub open spec fn upcoming_count(tasks: Seq<Task>, current_day: int) -> int
    decreases tasks.len(),
{
    if tasks.len() == 0 {
        0
    } else {
        upcoming_count(tasks.drop_last(), current_day) + (if is_upcoming(
            tasks.last(),
            current_day,
        ) {
            1int
        } else {
            0int
        })
    }
}

/// The most common priority among the given tallies, ties resolved in the
/// order Low, Medium, High.
pub open spec fn most_common_priority(low: int, medium: int, high: int) -> PriorityLevel {
    if low >= medium && low >= high {
        PriorityLevel::Low
    } else if medium >= low && medium >= high {
        PriorityLevel::Medium
    } else {
        PriorityLevel::High
    }
}

/// The aggregate metrics of a task list.
pub struct TaskReport {
    pub total: usize,
    pub completed: usize,
    pub incomplete: usize,
    pub low: usize,
    pub medium: usize,
    pub high: usize,
    pub total_points: u32,
    pub most_common: PriorityLevel,
    pub upcoming: usize,
}

proof fn lemma_priority_count_take_succ(s: Seq<Task>, p: PriorityLevel, i: int)
    requires
        0 <= i < s.len(),
    ensures
        priority_count(s.take(i + 1), p) == priority_count(s.take(i), p) + (if s[i].priority
            == p {
            1int
        } else {
            0int
        }),
{
    assert(s.take(i + 1).drop_last() =~= s.take(i));
    assert(s.take(i + 1).last() == s[i]);
}

proof fn lemma_upcoming_count_take_succ(s: Seq<Task>, current_day: int, i: int)
    requires
        0 <= i < s.len(),
    ensures
        upcoming_count(s.take(i + 1), current_day) == upcoming_count(s.take(i), current_day) + (
        if is_upcoming(s[i], current_day) {
            1int
        } else {
            0int
        }),
{
    assert(s.take(i + 1).drop_last() =~= s.take(i));
    assert(s.take(i + 1).last() == s[i]);
}

/// Compute the report for a task list, with upcoming tasks judged against
/// the day numbered `current_day` (days from the common era, as the
/// presentation layer obtains for today).
pub fn task_report(tasks: &[Task], current_day: i32) -> (r: TaskReport)
    requires
        total_points(tasks@) <= u32::MAX,
    ensures
        r.total == tasks@.len(),
        r.completed == completed_count(tasks@),
        r.incomplete == tasks@.len() - completed_count(tasks@),
        r.low == priority_count(tasks@, PriorityLevel::Low),
        r.medium == priority_count(tasks@, PriorityLevel::Medium),
        r.high == priority_count(tasks@, PriorityLevel::High),
        r.total_points == total_points(tasks@),
        r.most_common == most_common_priority(
            priority_count(tasks@, PriorityLevel::Low),
            priority_count(tasks@, PriorityLevel::Medium),
            priority_count(tasks@, PriorityLevel::High),
        ),
        r.upcoming == upcoming_count(tasks@, current_day as int),
{
    let n = tasks.len();
    let mut completed: usize = 0;
    let mut low: usize = 0;
    let mut medium: usize = 0;
    let mut high: usize = 0;
    let mut points: u32 = 0;
    let mut upcoming: usize = 0;
    proof {
        assert(tasks@.take(0) =~= Seq::<Task>::empty());
    }
    for i in 0..n
        invariant
            n == tasks@.len(),
            completed <= i,
            low <= i,
            medium <= i,
            high <= i,
            upcoming <= i,
            completed == completed_count(tasks@.take(i as int)),
            low == priority_count(tasks@.take(i as int), PriorityLevel::Low),
            medium == priority_count(tasks@.take(i as int), PriorityLevel::Medium),
            high == priority_count(tasks@.take(i as int), PriorityLevel::High),
            points == total_points(tasks@.take(i as int)),
            upcoming == upcoming_count(tasks@.take(i as int), current_day as int),
            total_points(tasks@) <= u32::MAX,
    {
        proof {
            lemma_completed_count_take_succ(tasks@, i as int);
            lemma_priority_count_take_succ(tasks@, PriorityLevel::Low, i as int);
            lemma_priority_count_take_succ(tasks@, PriorityLevel::Medium, i as int);
            lemma_priority_count_take_succ(tasks@, PriorityLevel::High, i as int);
            lemma_total_points_take_succ(tasks@, i as int);
            lemma_total_points_prefix_le(tasks@, i as int + 1);
            lemma_upcoming_count_take_succ(tasks@, current_day as int, i as int);
        }
        let t = &tasks[i];
        if t.completed {
            completed = completed + 1;
            points = points + t.points();
        }
        match t.priority {
            PriorityLevel::Low => {
                low = low + 1;
            },
            PriorityLevel::Medium => {
                medium = medium + 1;
            },
            PriorityLevel::High => {
                high = high + 1;
            },
        }
        match mdy_day_number(t.due_date.as_str()) {
            Some(day) => {
                if day > current_day {
                    upcoming = upcoming + 1;
                }
            },
            None => {},
        }
    }
    proof {
        assert(tasks@.take(n as int) =~= tasks@);
    }
    let most_common = if low >= medium && low >= high {
        PriorityLevel::Low
    } else if medium >= low && medium >= high {
        PriorityLevel::Medium
    } else {
        PriorityLevel::High
    };
    TaskReport {
        total: n,
        completed,
        incomplete: n - completed,
        low,
        medium,
        high,
        total_points: points,
        most_common,
        upcoming,
    }
}

} // verus!
