//! The application session state around the engine.
//!
//! This holds the task list, the input fields for a new task, and the
//! gamification state, with the two state-changing operations the
//! presentation layer drives: adding a task from the input fields and
//! refreshing the achievement state. Rendering stays outside the library.

use crate::gamification::{
    challenges_step, completed_count, daily_outcome, initial_gamification, tier_message,
    total_points, Gamification, PriorityLevel, Task,
};
use vstd::prelude::*;

verus! {

/// The session state: the tasks, the fields of the task-creation form,
/// edit/selection flags, and the gamification state.
pub struct TemplateApp {
    pub tasks: Vec<Task>,
    pub selected_task: Option<usize>,
    pub new_task_name: String,
    pub new_task_description: String,
    pub new_task_due_date: String,
    pub new_task_priority: PriorityLevel,
    pub new_task_completed: bool,
    pub is_editing: bool,
    pub gamification: Gamification,
    pub details_report_viewable: bool,
}

impl Default for TemplateApp {
    /// An empty session: no tasks, cleared form fields, a fresh
    /// gamification state.
    fn default() -> (r: Self)
        ensures
            r.tasks@ == Seq::<Task>::empty(),
            r.selected_task is None,
            r.new_task_name@ == Seq::<char>::empty(),
            r.new_task_description@ == Seq::<char>::empty(),
            r.new_task_due_date@ == Seq::<char>::empty(),
            r.new_task_priority is Low,
            !r.new_task_completed,
            !r.is_editing,
            initial_gamification(r.gamification),
            !r.details_report_viewable,
    {
        TemplateApp {
            tasks: Vec::new(),
            selected_task: None,
            new_task_name: String::new(),
            new_task_description: String::new(),
            new_task_due_date: String::new(),
            new_task_priority: PriorityLevel::Low,
            new_task_completed: false,
            is_editing: false,
            gamification: Gamification::new(),
            details_report_viewable: false,
        }
    }
}

impl TemplateApp {
    /// Append a task built from the form fields, provided the name, the
    /// description and the due date are all non-empty, then clear the
    /// form; with any of the three empty, change nothing.
    pub fn add_task(&mut self)
        ensures
            (old(self).new_task_name@.len() > 0 && old(self).new_task_description@.len() > 0
                && old(self).new_task_due_date@.len() > 0) ==> {
                &&& final(self).tasks@ == old(self).tasks@.push(
                    (Task {
                        name: old(self).new_task_name,
                        description: old(self).new_task_description,
                        due_date: old(self).new_task_due_date,
                        priority: old(self).new_task_priority,
                        completed: false,
                        completed_date: None,
                    }),
                )
                &&& final(self).new_task_name@ == Seq::<char>::empty()
                &&& final(self).new_task_description@ == Seq::<char>::empty()
                &&& final(self).new_task_due_date@ == Seq::<char>::empty()
                &&& final(self).new_task_priority is Low
                &&& !final(self).new_task_completed
                &&& final(self).selected_task == old(self).selected_task
                &&& final(self).is_editing == old(self).is_editing
                &&& final(self).gamification == old(self).gamification
                &&& final(self).details_report_viewable == old(self).details_report_viewable
            },
            !(old(self).new_task_name@.len() > 0 && old(self).new_task_description@.len() > 0
                && old(self).new_task_due_date@.len() > 0) ==> *final(self) == *old(self),
    {
        if !self.new_task_name.as_str().is_empty() && !self.new_task_description.as_str().is_empty()
            && !self.new_task_due_date.as_str().is_empty() {
            self.tasks.push(
                Task {
                    name: self.new_task_name.clone(),
                    description: self.new_task_description.clone(),
                    due_date: self.new_task_due_date.clone(),
                    priority: self.new_task_priority,
                    completed: false,
                    completed_date: None,
                },
            );

            self.new_task_name = String::new();
            self.new_task_description = String::new();
            self.new_task_due_date = String::new();
            self.new_task_priority = PriorityLevel::Low;
            self.new_task_completed = false;
        }
    }

    /// Run the challenge pass and then the daily pass over the current
    /// task list; the tasks themselves and the rest of the session are
    /// untouched.
    pub fn update_achievements(&mut self)
        requires
            total_points(old(self).tasks@) <= u32::MAX,
        ensures
            final(self).tasks@ == old(self).tasks@,
            final(self).gamification.points == total_points(old(self).tasks@),
            final(self).gamification.achievement_message@ == tier_message(
                total_points(old(self).tasks@),
                completed_count(old(self).tasks@),
                old(self).gamification.bronze_goal as int,
                old(self).gamification.silver_goal as int,
                old(self).gamification.gold_goal as int,
            ),
            final(self).gamification.bronze_goal == old(self).gamification.bronze_goal,
            final(self).gamification.silver_goal == old(self).gamification.silver_goal,
            final(self).gamification.gold_goal == old(self).gamification.gold_goal,
            final(self).gamification.weekly_challenge_message@ == old(
                self,
            ).gamification.weekly_challenge_message@,
            exists|today: Seq<char>|
                daily_outcome(final(self).gamification, old(self).tasks@, today),
            final(self).selected_task == old(self).selected_task,
            final(self).new_task_name@ == old(self).new_task_name@,
            final(self).new_task_description@ == old(self).new_task_description@,
            final(self).new_task_due_date@ == old(self).new_task_due_date@,
            final(self).new_task_priority == old(self).new_task_priority,
            final(self).new_task_completed == old(self).new_task_completed,
            final(self).is_editing == old(self).is_editing,
            final(self).details_report_viewable == old(self).details_report_viewable,
    {
        self.gamification.check_challenges(self.tasks.as_slice());
        let ghost mid = self.gamification;
        proof {
            assert(challenges_step(old(self).gamification, mid, old(self).tasks@));
        }
        self.gamification.daily_reward(self.tasks.as_slice());
        proof {
            let today = choose|today: Seq<char>|
                crate::gamification::daily_step(mid, self.gamification, old(self).tasks@, today);
            assert(daily_outcome(self.gamification, old(self).tasks@, today));
        }
    }
}

} // verus!
