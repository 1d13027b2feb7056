use task_hero::dates::{str_eq, str_le};
use task_hero::gamification::{Gamification, PriorityLevel, Task};

fn task(name: &str, priority: PriorityLevel, completed: bool, completed_date: Option<&str>) -> Task {
    Task {
        name: name.to_string(),
        description: "a task".to_string(),
        due_date: "2024-11-23".to_string(),
        priority,
        completed,
        completed_date: completed_date.map(|d| d.to_string()),
    }
}

#[test]
fn test_new_defaults() {
    let g = Gamification::new();
    assert_eq!(g.points, 0);
    assert_eq!(g.bronze_goal, 5);
    assert_eq!(g.silver_goal, 10);
    assert_eq!(g.gold_goal, 20);
    assert_eq!(g.achievement_message, "");
    assert_eq!(g.daily_reward, 0);
    assert_eq!(g.daily_reward_message, "");
    assert_eq!(
        g.weekly_challenge_message,
        "Complete a task every day for a week to earn 100 points!"
    );
}

#[test]
fn test_check_challenges_idempotent() {
    let tasks: Vec<Task> = (0..6)
        .map(|i| task(&format!("Task {}", i), PriorityLevel::High, true, None))
        .collect();
    let mut g = Gamification::new();
    g.check_challenges(&tasks);
    let first_points = g.points;
    let first_message = g.achievement_message.clone();
    g.check_challenges(&tasks);
    assert_eq!(g.points, first_points);
    assert_eq!(g.achievement_message, first_message);
}

#[test]
fn test_bronze_achievement() {
    // 5 completed low tasks: 50 points >= 50 and 5 >= bronze goal 5.
    let tasks: Vec<Task> = (0..5)
        .map(|i| task(&format!("Task {}", i), PriorityLevel::Low, true, None))
        .collect();
    let mut g = Gamification::new();
    g.check_challenges(&tasks);
    assert_eq!(g.points, 50);
    assert_eq!(
        g.achievement_message,
        "Congrats! You have reached the Bronze level!"
    );
}

#[test]
fn test_silver_achievement() {
    // 10 completed medium tasks: 200 points >= 100 and 10 >= silver goal 10,
    // while 200 < 500 keeps Gold out.
    let tasks: Vec<Task> = (0..10)
        .map(|i| task(&format!("Task {}", i), PriorityLevel::Medium, true, None))
        .collect();
    let mut g = Gamification::new();
    g.check_challenges(&tasks);
    assert_eq!(g.points, 200);
    assert_eq!(
        g.achievement_message,
        "Congrats! You have reached the Silver level!"
    );
}

#[test]
fn test_gold_achievement_beats_lower_tiers() {
    // 20 completed high tasks: 600 points >= 500 and 20 >= gold goal 20.
    // Gold is checked first, whatever silver and bronze would say.
    let tasks: Vec<Task> = (0..20)
        .map(|i| task(&format!("Task {}", i), PriorityLevel::High, true, None))
        .collect();
    let mut g = Gamification::new();
    g.check_challenges(&tasks);
    assert_eq!(g.points, 600);
    assert_eq!(
        g.achievement_message,
        "Congrats! You have reached the Gold level!"
    );
}

#[test]
fn test_incomplete_tasks_earn_nothing() {
    let tasks = vec![
        task("Task 1", PriorityLevel::High, false, None),
        task("Task 2", PriorityLevel::Low, true, None),
    ];
    let mut g = Gamification::new();
    g.check_challenges(&tasks);
    assert_eq!(g.points, 10);
}

#[test]
fn test_daily_reward_on_four_today_is_zero() {
    let today = "2024-11-23";
    let tasks: Vec<Task> = (0..4)
        .map(|i| task(&format!("Task {}", i), PriorityLevel::Low, true, Some(today)))
        .collect();
    let mut g = Gamification::new();
    g.daily_reward_on(&tasks, today);
    assert_eq!(g.daily_reward, 0);
    assert_eq!(g.daily_reward_message, "Keep going! You're making progress!");
}

#[test]
fn test_daily_reward_on_five_today_is_twenty_five() {
    let today = "2024-11-23";
    let tasks: Vec<Task> = (0..5)
        .map(|i| task(&format!("Task {}", i), PriorityLevel::Low, true, Some(today)))
        .collect();
    let mut g = Gamification::new();
    g.daily_reward_on(&tasks, today);
    assert_eq!(g.daily_reward, 25);
    assert_eq!(g.daily_reward_message, "Congrats! You completed 5 tasks today!");
}

#[test]
fn test_daily_reward_exact_string_match_only() {
    // A differently formatted date for the same day never counts.
    let today = "2024-11-02";
    let tasks = vec![
        task("Task 1", PriorityLevel::Low, true, Some("2024-11-2")),
        task("Task 2", PriorityLevel::Low, true, Some("2024-11-02 ")),
        task("Task 3", PriorityLevel::Low, true, None),
        task("Task 4", PriorityLevel::Low, true, Some("2024-11-02")),
    ];
    let mut g = Gamification::new();
    g.daily_reward_on(&tasks, today);
    // Only Task 4 counts, so the count stays under 5 and the reward is 0.
    assert_eq!(g.daily_reward, 0);
}

#[test]
fn test_weekly_challenge_on_full_week() {
    let current = "2024-11-23";
    let week_ago = "2024-11-16";
    let days = [
        "2024-11-17", "2024-11-18", "2024-11-19", "2024-11-20", "2024-11-21", "2024-11-22",
        "2024-11-23",
    ];
    let tasks: Vec<Task> = days
        .iter()
        .map(|&d| task(d, PriorityLevel::Medium, true, Some(d)))
        .collect();
    let mut g = Gamification::new();
    g.weekly_challenge_on(&tasks, current, week_ago);
    assert_eq!(g.points, 100);
    assert_eq!(
        g.weekly_challenge_message,
        "Congrats! You completed a task every day for the last week!"
    );
}

#[test]
fn test_weekly_challenge_on_six_of_seven_days() {
    let current = "2024-11-23";
    let week_ago = "2024-11-16";
    // 2024-11-20 is missing: points and message keep their prior values.
    let days = [
        "2024-11-17", "2024-11-18", "2024-11-19", "2024-11-21", "2024-11-22", "2024-11-23",
    ];
    let tasks: Vec<Task> = days
        .iter()
        .map(|&d| task(d, PriorityLevel::Medium, true, Some(d)))
        .collect();
    let mut g = Gamification::new();
    g.points = 42;
    g.weekly_challenge_on(&tasks, current, week_ago);
    assert_eq!(g.points, 42);
    assert_eq!(
        g.weekly_challenge_message,
        "Complete a task every day for a week to earn 100 points!"
    );
}

#[test]
fn test_weekly_challenge_on_unparseable_dates_are_skipped() {
    let current = "2024-11-23";
    let week_ago = "2024-11-16";
    // "2024-11-1a" lies lexically inside the window but does not parse:
    // it is skipped, never a fault.
    let tasks = vec![
        task("Task 1", PriorityLevel::Low, true, Some("2024-11-1a")),
        task("Task 2", PriorityLevel::Low, true, Some("garbage")),
        task("Task 3", PriorityLevel::Low, false, None),
    ];
    let mut g = Gamification::new();
    g.points = 7;
    g.weekly_challenge_on(&tasks, current, week_ago);
    assert_eq!(g.points, 7);
    assert_eq!(
        g.weekly_challenge_message,
        "Complete a task every day for a week to earn 100 points!"
    );
}

#[test]
fn test_weekly_challenge_on_window_is_lexical() {
    // Dates outside [week_ago, current] never count, even if they parse.
    let current = "2024-11-23";
    let week_ago = "2024-11-16";
    let tasks = vec![
        task("Task 1", PriorityLevel::Low, true, Some("2024-11-15")),
        task("Task 2", PriorityLevel::Low, true, Some("2024-11-24")),
    ];
    let mut g = Gamification::new();
    g.weekly_challenge_on(&tasks, current, week_ago);
    assert_eq!(g.points, 0);
}

#[test]
fn test_str_le_is_lexicographic() {
    assert!(str_le("2024-11-16", "2024-11-23"));
    assert!(!str_le("2024-11-24", "2024-11-23"));
    assert!(str_le("2024-11-23", "2024-11-23"));
    assert!(str_le("", "a"));
    assert!(!str_le("a", ""));
    assert!(str_le("abc", "abcd"));
}

#[test]
fn test_str_eq_is_exact() {
    assert!(str_eq("2024-11-23", "2024-11-23"));
    assert!(!str_eq("2024-11-23", "2024-11-2"));
    assert!(!str_eq("2024-11-23", "2024-11-23 "));
    assert!(str_eq("", ""));
}

#[test]
fn test_total_points_checked_sums_completed() {
    let tasks = vec![
        task("Task 1", PriorityLevel::High, true, None),
        task("Task 2", PriorityLevel::Medium, false, None),
        task("Task 3", PriorityLevel::Low, true, None),
    ];
    assert_eq!(task_hero::gamification::total_points_checked(&tasks), Some(40));
    assert_eq!(task_hero::gamification::total_points_checked(&[]), Some(0));
}
