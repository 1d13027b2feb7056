//! TaskHero: a small task list with a verified gamification engine.
//!
//! The root module holds the minimal task type used by the quick-start
//! examples; the `gamification` module holds the scoring engine.

use vstd::prelude::*;

pub mod app;
pub mod dates;
pub mod gamification;
pub mod report;

pub use crate::app::TemplateApp;

verus! {

/// A minimal task: a title and a completion flag.
pub struct Task {
    pub title: String,
    pub completed: bool,
}

impl Task {
    /// A fresh, not-yet-completed task with the given title.
    pub fn new(title: &str) -> (r: Task)
        ensures
            r.title@ == title@,
            !r.completed,
    {
        Task { title: title.to_owned(), completed: false }
    }

    /// Mark the task as completed; the title is untouched.
    pub fn complete(&mut self)
        ensures
            final(self).completed,
            final(self).title@ == old(self).title@,
    {
        self.completed = true;
    }
}

/// Convenience constructor; same contract as [`Task::new`].
pub fn create_task(title: &str) -> (r: Task)
    ensures
        r.title@ == title@,
        !r.completed,
{
    Task::new(title)
}

} // verus!
