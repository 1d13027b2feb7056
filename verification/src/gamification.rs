//! The gamification engine.
//!
//! Three independent evaluation passes over a read-only task list:
//! a cumulative challenge tier, a same-day completion reward, and a
//! seven-day streak challenge. Each pass recomputes its output fields from
//! the task list alone and overwrites them in the [`Gamification`] state;
//! nothing else in the state moves.

use crate::dates::{days_between, lex_le, local_days_ago, local_today, str_eq, str_le, ymd_day};
use vstd::prelude::*;

verus! {

/// Priority levels for tasks, in ascending order of worth.
#[derive(Debug, Clone, Copy, PartialEq, Eq)]
pub enum PriorityLevel {
    Low,
    Medium,
    High,
}

/// A task: name, description, free-form due date, priority, completion
/// flag, and the completion date ("YYYY-MM-DD", present only once the task
/// is completed).
#[derive(Debug, Clone)]
pub struct Task {
    pub name: String,
    pub description: String,
    pub due_date: String,
    pub priority: PriorityLevel,
    pub completed: bool,
    pub completed_date: Option<String>,
}

/// The fixed worth of a priority level: 10, 20 or 30 points.
pub open spec fn priority_points(p: PriorityLevel) -> u32 {
    match p {
        PriorityLevel::Low => 10u32,
        PriorityLevel::Medium => 20u32,
        PriorityLevel::High => 30u32,
    }
}

impl Task {
    /// The task's point value: 10 for Low, 20 for Medium, 30 for High.
    pub fn points(&self) -> (r: u32)
        ensures
            r == priority_points(self.priority),
            r == 10 <==> self.priority is Low,
            r == 20 <==> self.priority is Medium,
            r == 30 <==> self.priority is High,
    {
        match self.priority {
            PriorityLevel::Low => 10,
            PriorityLevel::Medium => 20,
            PriorityLevel::High => 30,
        }
    }
}

/// The sum of the point values of the completed tasks.
pub open spec fn total_points(tasks: Seq<Task>) -> int
    decreases tasks.len(),
{
    if tasks.len() == 0 {
        0
    } else {
        total_points(tasks.drop_last()) + (if tasks.last().completed {
            priority_points(tasks.last().priority) as int
        } else {
            0int
        })
    }
}

/// How many tasks are marked completed.
pub open spec fn completed_count(tasks: Seq<Task>) -> int
    decreases tasks.len(),
{
    if tasks.len() == 0 {
        0
    } else {
        completed_count(tasks.drop_last()) + (if tasks.last().completed {
            1int
        } else {
            0int
        })
    }
}

/// Whether a task carries `today` as its completion date, compared as an
/// exact string. Tasks with no completion date, or any other string,
/// never count.
pub open spec fn counts_today(t: Task, today: Seq<char>) -> bool {
    &&& t.completed_date is Some
    &&& t.completed_date->Some_0@ == today
}

/// How many tasks carry `today` as their completion date.
pub open spec fn daily_count(tasks: Seq<Task>, today: Seq<char>) -> int
    decreases tasks.len(),
{
    if tasks.len() == 0 {
        0
    } else {
        daily_count(tasks.drop_last(), today) + (if counts_today(tasks.last(), today) {
            1int
        } else {
            0int
        })
    }
}

pub open spec fn gold_message() -> Seq<char> {
    "Congrats! You have reached the Gold level!"@
}

pub open spec fn silver_message() -> Seq<char> {
    "Congrats! You have reached the Silver level!"@
}

pub open spec fn bronze_message() -> Seq<char> {
    "Congrats! You have reached the Bronze level!"@
}

pub open spec fn progress_message() -> Seq<char> {
    "Keep going! You're progressing toward the next level!"@
}

pub open spec fn weekly_prompt_message() -> Seq<char> {
    "Complete a task every day for a week to earn 100 points!"@
}

pub open spec fn weekly_success_message() -> Seq<char> {
    "Congrats! You completed a task every day for the last week!"@
}

/// The achievement message for a point total and a completed count,
/// checked top-down: Gold, then Silver, then Bronze, each against its
/// fixed point threshold and its task-count goal; otherwise the generic
/// progress message.
pub open spec fn tier_message(
    points: int,
    completed: int,
    bronze_goal: int,
    silver_goal: int,
    gold_goal: int,
) -> Seq<char> {
    if points >= 500 && completed >= gold_goal {
        gold_message()
    } else if points >= 100 && completed >= silver_goal {
        silver_message()
    } else if points >= 50 && completed >= bronze_goal {
        bronze_message()
    } else {
        progress_message()
    }
}

/// The gamification state: cumulative points, the three task-count goals,
/// and the last message and reward each pass produced.
pub struct Gamification {
    pub points: u32,
    pub bronze_goal: u32,
    pub silver_goal: u32,
    pub gold_goal: u32,
    pub achievement_message: String,
    pub daily_reward: u32,
    pub daily_reward_message: String,
    pub weekly_challenge_message: String,
}

/// The state a fresh [`Gamification::new`] value is in.
pub open spec fn initial_gamification(g: Gamification) -> bool {
    &&& g.points == 0
    &&& g.bronze_goal == 5
    &&& g.silver_goal == 10
    &&& g.gold_goal == 20
    &&& g.achievement_message@ == Seq::<char>::empty()
    &&& g.daily_reward == 0
    &&& g.daily_reward_message@ == Seq::<char>::empty()
    &&& g.weekly_challenge_message@ == weekly_prompt_message()
}

/// What one `check_challenges` call does: points are recomputed as the sum
/// over completed tasks, the achievement message is picked by
/// [`tier_message`] against the goals held before the call, and every
/// other field keeps its value.
pub open spec fn challenges_step(pre: Gamification, post: Gamification, tasks: Seq<Task>) -> bool {
    &&& post.points == total_points(tasks)
    &&& post.achievement_message@ == tier_message(
        total_points(tasks),
        completed_count(tasks),
        pre.bronze_goal as int,
        pre.silver_goal as int,
        pre.gold_goal as int,
    )
    &&& post.bronze_goal == pre.bronze_goal
    &&& post.silver_goal == pre.silver_goal
    &&& post.gold_goal == pre.gold_goal
    &&& post.daily_reward == pre.daily_reward
    &&& post.daily_reward_message@ == pre.daily_reward_message@
    &&& post.weekly_challenge_message@ == pre.weekly_challenge_message@
}

/// The daily reward for a same-day completion count: a step function with
/// inclusive thresholds at 5, 10 and 15.
pub open spec fn daily_amount(n: int) -> u32 {
    if n >= 15 {
        100u32
    } else if n >= 10 {
        50u32
    } else if n >= 5 {
        25u32
    } else {
        0u32
    }
}

/// The daily reward message for a same-day completion count.
pub open spec fn daily_message(n: int) -> Seq<char> {
    if n >= 15 {
        "Congrats! You completed 15 tasks today!"@
    } else if n >= 10 {
        "Congrats! You completed 10 tasks today!"@
    } else if n >= 5 {
        "Congrats! You completed 5 tasks today!"@
    } else {
        "Keep going! You're making progress!"@
    }
}

/// What one `daily_reward` call does, for the day `today`: the reward and
/// its message follow [`daily_amount`] and [`daily_message`] of the
/// same-day completion count, and every other field keeps its value.
pub open spec fn daily_step(
    pre: Gamification,
    post: Gamification,
    tasks: Seq<Task>,
    today: Seq<char>,
) -> bool {
    &&& post.daily_reward == daily_amount(daily_count(tasks, today))
    &&& post.daily_reward_message@ == daily_message(daily_count(tasks, today))
    &&& post.points == pre.points
    &&& post.bronze_goal == pre.bronze_goal
    &&& post.silver_goal == pre.silver_goal
    &&& post.gold_goal == pre.gold_goal
    &&& post.achievement_message@ == pre.achievement_message@
    &&& post.weekly_challenge_message@ == pre.weekly_challenge_message@
}

/// The daily-reward fields of `g` are what one pass over `tasks` on the
/// day `today` produces.
pub open spec fn daily_outcome(g: Gamification, tasks: Seq<Task>, today: Seq<char>) -> bool {
    &&& g.daily_reward == daily_amount(daily_count(tasks, today))
    &&& g.daily_reward_message@ == daily_message(daily_count(tasks, today))
}

/// Whether a task contributes to the streak bucket `d` days before
/// `current`: it has a completion date lying lexically in the inclusive
/// window `[week_ago, current]`, both `current` and that date parse as
/// "YYYY-MM-DD" dates, and their difference in days is exactly `d`.
/// A task whose completion date does not parse contributes nowhere.
pub open spec fn covers(t: Task, current: Seq<char>, week_ago: Seq<char>, d: int) -> bool {
    &&& t.completed_date is Some
    &&& lex_le(week_ago, t.completed_date->Some_0@)
    &&& lex_le(t.completed_date->Some_0@, current)
    &&& ymd_day(current) is Some
    &&& ymd_day(t.completed_date->Some_0@) is Some
    &&& ymd_day(current)->Some_0 - ymd_day(t.completed_date->Some_0@)->Some_0 == d
}

/// Whether some task in the list covers the day `d` days before `current`.
pub open spec fn day_covered(
    tasks: Seq<Task>,
    current: Seq<char>,
    week_ago: Seq<char>,
    d: int,
) -> bool
    decreases tasks.len(),
{
    if tasks.len() == 0 {
        false
    } else {
        day_covered(tasks.drop_last(), current, week_ago, d) || covers(
            tasks.last(),
            current,
            week_ago,
            d,
        )
    }
}

/// Whether each of the seven days ending at `current` is covered by some
/// completed task.
pub open spec fn full_week(tasks: Seq<Task>, current: Seq<char>, week_ago: Seq<char>) -> bool {
    forall|d: int| 0 <= d < 7 ==> day_covered(tasks, current, week_ago, d)
}

/// What one `weekly_challenge` call does, for the window
/// `[week_ago, current]`: on a full week the points are overwritten with
/// exactly 100 and the success message is set; otherwise the points and
/// the weekly message keep their prior values. Every other field keeps
/// its value either way.
pub open spec fn weekly_step(
    pre: Gamification,
    post: Gamification,
    tasks: Seq<Task>,
    current: Seq<char>,
    week_ago: Seq<char>,
) -> bool {
    &&& post.bronze_goal == pre.bronze_goal
    &&& post.silver_goal == pre.silver_goal
    &&& post.gold_goal == pre.gold_goal
    &&& post.achievement_message@ == pre.achievement_message@
    &&& post.daily_reward == pre.daily_reward
    &&& post.daily_reward_message@ == pre.daily_reward_message@
    &&& if full_week(tasks, current, week_ago) {
        post.points == 100 && post.weekly_challenge_message@ == weekly_success_message()
    } else {
        post.points == pre.points && post.weekly_challenge_message@
            == pre.weekly_challenge_message@
    }
}

pub(crate) proof fn lemma_total_points_take_succ(s: Seq<Task>, i: int)
    requires
        0 <= i < s.len(),
    ensures
        total_points(s.take(i + 1)) == total_points(s.take(i)) + (if s[i].completed {
            priority_points(s[i].priority) as int
        } else {
            0int
        }),
{
    assert(s.take(i + 1).drop_last() =~= s.take(i));
    assert(s.take(i + 1).last() == s[i]);
}

pub(crate) proof fn lemma_total_points_prefix_le(s: Seq<Task>, i: int)
    requires
        0 <= i <= s.len(),
    ensures
        total_points(s.take(i)) <= total_points(s),
    decreases s.len() - i,
{
    if i == s.len() {
        assert(s.take(i) =~= s);
    } else {
        lemma_total_points_take_succ(s, i);
        lemma_total_points_prefix_le(s, i + 1);
    }
}

pub(crate) proof fn lemma_completed_count_take_succ(s: Seq<Task>, i: int)
    requires
        0 <= i < s.len(),
    ensures
        completed_count(s.take(i + 1)) == completed_count(s.take(i)) + (if s[i].completed {
            1int
        } else {
            0int
        }),
{
    assert(s.take(i + 1).drop_last() =~= s.take(i));
    assert(s.take(i + 1).last() == s[i]);
}

proof fn lemma_daily_count_take_succ(s: Seq<Task>, today: Seq<char>, i: int)
    requires
        0 <= i < s.len(),
    ensures
        daily_count(s.take(i + 1), today) == daily_count(s.take(i), today) + (if counts_today(
            s[i],
            today,
        ) {
            1int
        } else {
            0int
        }),
{
    assert(s.take(i + 1).drop_last() =~= s.take(i));
    assert(s.take(i + 1).last() == s[i]);
}

proof fn lemma_day_covered_take_succ(s: Seq<Task>, current: Seq<char>, week_ago: Seq<char>, d: int, i: int)
    requires
        0 <= i < s.len(),
    ensures
        day_covered(s.take(i + 1), current, week_ago, d) == (day_covered(
            s.take(i),
            current,
            week_ago,
            d,
        ) || covers(s[i], current, week_ago, d)),
{
    assert(s.take(i + 1).drop_last() =~= s.take(i));
    assert(s.take(i + 1).last() == s[i]);
}

impl Gamification {
    /// A fresh state: no points, goals of 5, 10 and 20 completed tasks,
    /// empty messages, and the weekly challenge prompt.
    pub fn new() -> (r: Self)
        ensures
            initial_gamification(r),
    {
        Gamification {
            points: 0,
            bronze_goal: 5,
            silver_goal: 10,
            gold_goal: 20,
            achievement_message: String::new(),
            daily_reward: 0,
            daily_reward_message: String::new(),
            weekly_challenge_message: "Complete a task every day for a week to earn 100 points!".to_owned(),
        }
    }

    /// Recompute the cumulative points and pick the achievement tier
    /// message, Gold first, by [`challenges_step`].
    pub fn check_challenges(&mut self, tasks: &[Task])
        requires
            total_points(tasks@) <= u32::MAX,
        ensures
            challenges_step(*old(self), *final(self), tasks@),
    {
        let gold_points: u32 = 500;
        let silver_points: u32 = 100;
        let bronze_points: u32 = 50;

        let n = tasks.len();
        let mut completed_tasks: usize = 0;
        let mut points: u32 = 0;
        proof {
            assert(tasks@.take(0) =~= Seq::<Task>::empty());
        }
        for i in 0..n
            invariant
                n == tasks@.len(),
                completed_tasks <= i,
                completed_tasks == completed_count(tasks@.take(i as int)),
                points == total_points(tasks@.take(i as int)),
                total_points(tasks@) <= u32::MAX,
        {
            proof {
                lemma_completed_count_take_succ(tasks@, i as int);
                lemma_total_points_take_succ(tasks@, i as int);
                lemma_total_points_prefix_le(tasks@, i as int + 1);
            }
            let t = &tasks[i];
            if t.completed {
                completed_tasks = completed_tasks + 1;
                points = points + t.points();
            }
        }
        proof {
            assert(tasks@.take(n as int) =~= tasks@);
        }
        self.points = points;

        if self.points >= gold_points && completed_tasks >= self.gold_goal as usize {
            self.display_achievement("Congrats! You have reached the Gold level!");
        } else if self.points >= silver_points && completed_tasks >= self.silver_goal as usize {
            self.display_achievement("Congrats! You have reached the Silver level!");
        } else if self.points >= bronze_points && completed_tasks >= self.bronze_goal as usize {
            self.display_achievement("Congrats! You have reached the Bronze level!");
        } else {
            self.display_achievement("Keep going! You're progressing toward the next level!");
        }
    }

    /// The daily pass against an explicit day string: count the tasks
    /// completed on `today` and set the reward and its message by
    /// [`daily_step`]. Total over every input.
    pub fn daily_reward_on(&mut self, tasks: &[Task], today: &str)
        ensures
            daily_step(*old(self), *final(self), tasks@, today@),
    {
        let n = tasks.len();
        let mut daily_tasks: usize = 0;
        proof {
            assert(tasks@.take(0) =~= Seq::<Task>::empty());
        }
        for i in 0..n
            invariant
                n == tasks@.len(),
                daily_tasks <= i,
                daily_tasks == daily_count(tasks@.take(i as int), today@),
        {
            proof {
                lemma_daily_count_take_succ(tasks@, today@, i as int);
            }
            let t = &tasks[i];
            if let Some(completed_date) = &t.completed_date {
                if str_eq(completed_date.as_str(), today) {
                    daily_tasks = daily_tasks + 1;
                }
            }
        }
        proof {
            assert(tasks@.take(n as int) =~= tasks@);
        }
        if daily_tasks >= 15 {
            self.display_daily_reward("Congrats! You completed 15 tasks today!");
            self.daily_reward = 100;
        } else if daily_tasks >= 10 {
            self.display_daily_reward("Congrats! You completed 10 tasks today!");
            self.daily_reward = 50;
        } else if daily_tasks >= 5 {
            self.display_daily_reward("Congrats! You completed 5 tasks today!");
            self.daily_reward = 25;
        } else {
            self.display_daily_reward("Keep going! You're making progress!");
            self.daily_reward = 0;
        }
    }

    /// The daily pass against the local clock: [`daily_reward_on`] with
    /// today's date. Whatever string the clock yields, the outcome is one
    /// daily pass for that day.
    pub fn daily_reward(&mut self, tasks: &[Task])
        ensures
            exists|today: Seq<char>| daily_step(*old(self), *final(self), tasks@, today),
    {
        let today = local_today();
        self.daily_reward_on(tasks, today.as_str());
        proof {
            assert(daily_step(*old(self), *self, tasks@, today@));
        }
    }

    /// The weekly pass against an explicit window: if each of the seven
    /// days ending at `current_date` has a completed task, overwrite the
    /// points with exactly 100 and set the success message; otherwise
    /// leave both as they were, by [`weekly_step`]. Tasks whose dates do
    /// not parse are skipped, never a fault. Total over every input.
    pub fn weekly_challenge_on(&mut self, tasks: &[Task], current_date: &str, seven_days_ago: &str)
        ensures
            weekly_step(*old(self), *final(self), tasks@, current_date@, seven_days_ago@),
    {
        let n = tasks.len();
        let mut day0: bool = false;
        let mut day1: bool = false;
        let mut day2: bool = false;
        let mut day3: bool = false;
        let mut day4: bool = false;
        let mut day5: bool = false;
        let mut day6: bool = false;
        proof {
            assert(tasks@.take(0) =~= Seq::<Task>::empty());
        }
        for i in 0..n
            invariant
                n == tasks@.len(),
                day0 == day_covered(tasks@.take(i as int), current_date@, seven_days_ago@, 0),
                day1 == day_covered(tasks@.take(i as int), current_date@, seven_days_ago@, 1),
                day2 == day_covered(tasks@.take(i as int), current_date@, seven_days_ago@, 2),
                day3 == day_covered(tasks@.take(i as int), current_date@, seven_days_ago@, 3),
                day4 == day_covered(tasks@.take(i as int), current_date@, seven_days_ago@, 4),
                day5 == day_covered(tasks@.take(i as int), current_date@, seven_days_ago@, 5),
                day6 == day_covered(tasks@.take(i as int), current_date@, seven_days_ago@, 6),
        {
            proof {
                lemma_day_covered_take_succ(tasks@, current_date@, seven_days_ago@, 0, i as int);
                lemma_day_covered_take_succ(tasks@, current_date@, seven_days_ago@, 1, i as int);
                lemma_day_covered_take_succ(tasks@, current_date@, seven_days_ago@, 2, i as int);
                lemma_day_covered_take_succ(tasks@, current_date@, seven_days_ago@, 3, i as int);
                lemma_day_covered_take_succ(tasks@, current_date@, seven_days_ago@, 4, i as int);
                lemma_day_covered_take_succ(tasks@, current_date@, seven_days_ago@, 5, i as int);
                lemma_day_covered_take_succ(tasks@, current_date@, seven_days_ago@, 6, i as int);
            }
            let t = &tasks[i];
            if let Some(completed_date) = &t.completed_date {
                if str_le(seven_days_ago, completed_date.as_str()) && str_le(
                    completed_date.as_str(),
                    current_date,
                ) {
                    match days_between(current_date, completed_date.as_str()) {
                        Some(days_diff) => {
                            if 0 <= days_diff && days_diff < 7 {
                                if days_diff == 0 {
                                    day0 = true;
                                } else if days_diff == 1 {
                                    day1 = true;
                                } else if days_diff == 2 {
                                    day2 = true;
                                } else if days_diff == 3 {
                                    day3 = true;
                                } else if days_diff == 4 {
                                    day4 = true;
                                } else if days_diff == 5 {
                                    day5 = true;
                                } else {
                                    day6 = true;
                                }
                            }
                        },
                        None => {},
                    }
                }
            }
        }
        proof {
            assert(tasks@.take(n as int) =~= tasks@);
        }
        if day0 && day1 && day2 && day3 && day4 && day5 && day6 {
            self.points = 100;
            self.display_weekly_challenge(
                "Congrats! You completed a task every day for the last week!",
            );
        }
    }

    /// The weekly pass against the local clock: [`weekly_challenge_on`]
    /// with today and the day seven days back (or a fixed early date when
    /// that subtraction fails). Whatever strings the clock yields, the
    /// outcome is one weekly pass for that window.
    pub fn weekly_challenge(&mut self, tasks: &[Task])
        ensures
            exists|current: Seq<char>, week_ago: Seq<char>|
                weekly_step(*old(self), *final(self), tasks@, current, week_ago),
    {
        let current_date = local_today();
        let seven_days_ago = match local_days_ago(7) {
            Some(d) => d,
            None => "1970-01-01".to_owned(),
        };
        self.weekly_challenge_on(tasks, current_date.as_str(), seven_days_ago.as_str());
        proof {
            assert(weekly_step(*old(self), *self, tasks@, current_date@, seven_days_ago@));
        }
    }

    fn display_achievement(&mut self, message: &str)
        ensures
            final(self).achievement_message@ == message@,
            final(self).points == old(self).points,
            final(self).bronze_goal == old(self).bronze_goal,
            final(self).silver_goal == old(self).silver_goal,
            final(self).gold_goal == old(self).gold_goal,
            final(self).daily_reward == old(self).daily_reward,
            final(self).daily_reward_message@ == old(self).daily_reward_message@,
            final(self).weekly_challenge_message@ == old(self).weekly_challenge_message@,
    {
        self.achievement_message = message.to_owned();
    }

    fn display_daily_reward(&mut self, message: &str)
        ensures
            final(self).daily_reward_message@ == message@,
            final(self).points == old(self).points,
            final(self).bronze_goal == old(self).bronze_goal,
            final(self).silver_goal == old(self).silver_goal,
            final(self).gold_goal == old(self).gold_goal,
            final(self).daily_reward == old(self).daily_reward,
            final(self).achievement_message@ == old(self).achievement_message@,
            final(self).weekly_challenge_message@ == old(self).weekly_challenge_message@,
    {
        self.daily_reward_message = message.to_owned();
    }

    fn display_weekly_challenge(&mut self, message: &str)
        ensures
            final(self).weekly_challenge_message@ == message@,
            final(self).points == old(self).points,
            final(self).bronze_goal == old(self).bronze_goal,
            final(self).silver_goal == old(self).silver_goal,
            final(self).gold_goal == old(self).gold_goal,
            final(self).daily_reward == old(self).daily_reward,
            final(self).achievement_message@ == old(self).achievement_message@,
            final(self).daily_reward_message@ == old(self).daily_reward_message@,
    {
        self.weekly_challenge_message = message.to_owned();
    }
}

/// The total of the completed tasks' points, or `None` exactly when that
/// total does not fit in `u32`. Callers use this to guard
/// [`Gamification::check_challenges`].
pub fn total_points_checked(tasks: &[Task]) -> (r: Option<u32>)
    ensures
        r is Some <==> total_points(tasks@) <= u32::MAX,
        r is Some ==> r->Some_0 == total_points(tasks@),
{
    let n = tasks.len();
    let mut acc: u32 = 0;
    proof {
        assert(tasks@.take(0) =~= Seq::<Task>::empty());
    }
    for i in 0..n
        invariant
            n == tasks@.len(),
            acc == total_points(tasks@.take(i as int)),
    {
        proof {
            lemma_total_points_take_succ(tasks@, i as int);
        }
        let t = &tasks[i];
        if t.completed {
            let p = t.points();
            if acc > u32::MAX - p {
                proof {
                    lemma_total_points_prefix_le(tasks@, i as int + 1);
                }
                return None;
            }
            acc = acc + p;
        }
    }
    proof {
        assert(tasks@.take(n as int) =~= tasks@);
    }
    Some(acc)
}

/// Each evaluation pass is idempotent: a second `check_challenges` over
/// the same task list leaves the whole state as the first left it.
pub proof fn lemma_check_challenges_idempotent(
    g0: Gamification,
    g1: Gamification,
    g2: Gamification,
    tasks: Seq<Task>,
)
    requires
        challenges_step(g0, g1, tasks),
        challenges_step(g1, g2, tasks),
    ensures
        g2.points == g1.points,
        g2.achievement_message@ == g1.achievement_message@,
        g2.bronze_goal == g1.bronze_goal,
        g2.silver_goal == g1.silver_goal,
        g2.gold_goal == g1.gold_goal,
        g2.daily_reward == g1.daily_reward,
        g2.daily_reward_message@ == g1.daily_reward_message@,
        g2.weekly_challenge_message@ == g1.weekly_challenge_message@,
{
}

/// A second daily pass for the same day over the same task list leaves
/// the whole state as the first left it.
pub proof fn lemma_daily_reward_idempotent(
    g0: Gamification,
    g1: Gamification,
    g2: Gamification,
    tasks: Seq<Task>,
    today: Seq<char>,
)
    requires
        daily_step(g0, g1, tasks, today),
        daily_step(g1, g2, tasks, today),
    ensures
        g2.daily_reward == g1.daily_reward,
        g2.daily_reward_message@ == g1.daily_reward_message@,
        g2.points == g1.points,
        g2.bronze_goal == g1.bronze_goal,
        g2.silver_goal == g1.silver_goal,
        g2.gold_goal == g1.gold_goal,
        g2.achievement_message@ == g1.achievement_message@,
        g2.weekly_challenge_message@ == g1.weekly_challenge_message@,
{
}

/// A second weekly pass for the same window over the same task list
/// leaves the whole state as the first left it.
pub proof fn lemma_weekly_challenge_idempotent(
    g0: Gamification,
    g1: Gamification,
    g2: Gamification,
    tasks: Seq<Task>,
    current: Seq<char>,
    week_ago: Seq<char>,
)
    requires
        weekly_step(g0, g1, tasks, current, week_ago),
        weekly_step(g1, g2, tasks, current, week_ago),
    ensures
        g2.points == g1.points,
        g2.weekly_challenge_message@ == g1.weekly_challenge_message@,
        g2.bronze_goal == g1.bronze_goal,
        g2.silver_goal == g1.silver_goal,
        g2.gold_goal == g1.gold_goal,
        g2.achievement_message@ == g1.achievement_message@,
        g2.daily_reward == g1.daily_reward,
        g2.daily_reward_message@ == g1.daily_reward_message@,
{
}

/// With at least 500 points and at least the gold goal of completed
/// tasks, `check_challenges` always announces Gold, whatever the silver
/// and bronze goals say.
pub proof fn lemma_gold_precedence(pre: Gamification, post: Gamification, tasks: Seq<Task>)
    requires
        challenges_step(pre, post, tasks),
        total_points(tasks) >= 500,
        completed_count(tasks) >= pre.gold_goal,
    ensures
        post.achievement_message@ == gold_message(),
{
}

/// The daily reward never shrinks as the same-day completion count grows.
pub proof fn lemma_daily_amount_monotonic(m: int, n: int)
    requires
        m <= n,
    ensures
        daily_amount(m) <= daily_amount(n),
{
}

/// Within one refresh, the challenge pass and the daily pass write
/// disjoint fields: over the same task list and day they can run in
/// either order and leave the same state.
pub proof fn lemma_challenges_daily_commute(
    g0: Gamification,
    g1: Gamification,
    g2: Gamification,
    h1: Gamification,
    h2: Gamification,
    tasks: Seq<Task>,
    today: Seq<char>,
)
    requires
        challenges_step(g0, g1, tasks),
        daily_step(g1, g2, tasks, today),
        daily_step(g0, h1, tasks, today),
        challenges_step(h1, h2, tasks),
    ensures
        g2.points == h2.points,
        g2.achievement_message@ == h2.achievement_message@,
        g2.daily_reward == h2.daily_reward,
        g2.daily_reward_message@ == h2.daily_reward_message@,
        g2.weekly_challenge_message@ == h2.weekly_challenge_message@,
        g2.bronze_goal == h2.bronze_goal,
        g2.silver_goal == h2.silver_goal,
        g2.gold_goal == h2.gold_goal,
{
}

} // verus!
