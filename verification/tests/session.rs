use chrono::Datelike;
use task_hero::gamification::{PriorityLevel, Task};
use task_hero::report::task_report;
use task_hero::TemplateApp;

fn task_due(name: &str, due: &str, priority: PriorityLevel, completed: bool) -> Task {
    Task {
        name: name.to_string(),
        description: "a task".to_string(),
        due_date: due.to_string(),
        priority,
        completed,
        completed_date: None,
    }
}

#[test]
fn test_add_task_appends_and_clears_form() {
    let mut app = TemplateApp::default();
    app.new_task_name = "Write report".to_string();
    app.new_task_description = "Quarterly numbers".to_string();
    app.new_task_due_date = "12.01.2024".to_string();
    app.new_task_priority = PriorityLevel::High;

    app.add_task();

    assert_eq!(app.tasks.len(), 1);
    assert_eq!(app.tasks[0].name, "Write report");
    assert_eq!(app.tasks[0].description, "Quarterly numbers");
    assert_eq!(app.tasks[0].due_date, "12.01.2024");
    assert!(!app.tasks[0].completed);
    assert!(app.tasks[0].completed_date.is_none());
    assert_eq!(app.new_task_name, "");
    assert_eq!(app.new_task_description, "");
    assert_eq!(app.new_task_due_date, "");
}

#[test]
fn test_add_task_needs_all_three_fields() {
    let mut app = TemplateApp::default();
    app.new_task_name = "Nameless otherwise".to_string();
    app.new_task_description = "".to_string();
    app.new_task_due_date = "12.01.2024".to_string();

    app.add_task();

    assert_eq!(app.tasks.len(), 0);
    assert_eq!(app.new_task_name, "Nameless otherwise");
}

#[test]
fn test_update_achievements_refreshes_points() {
    let mut app = TemplateApp::default();
    app.new_task_name = "One".to_string();
    app.new_task_description = "first".to_string();
    app.new_task_due_date = "12.01.2024".to_string();
    app.new_task_priority = PriorityLevel::Medium;
    app.add_task();
    app.tasks[0].completed = true;

    app.update_achievements();

    assert_eq!(app.gamification.points, 20);
    assert_eq!(
        app.gamification.achievement_message,
        "Keep going! You're progressing toward the next level!"
    );
}

#[test]
fn test_task_report_counts() {
    let current_day = chrono::NaiveDate::from_ymd_opt(2024, 11, 23)
        .unwrap()
        .num_days_from_ce();
    let tasks = vec![
        task_due("Task 1", "11.30.2024", PriorityLevel::Low, true),
        task_due("Task 2", "11.01.2024", PriorityLevel::Low, false),
        task_due("Task 3", "12.25.2024", PriorityLevel::Medium, true),
        task_due("Task 4", "not a date", PriorityLevel::High, false),
    ];

    let r = task_report(&tasks, current_day);

    assert_eq!(r.total, 4);
    assert_eq!(r.completed, 2);
    assert_eq!(r.incomplete, 2);
    assert_eq!(r.low, 2);
    assert_eq!(r.medium, 1);
    assert_eq!(r.high, 1);
    assert_eq!(r.total_points, 30); // 10 (Low) + 20 (Medium) completed
    assert_eq!(r.most_common, PriorityLevel::Low);
    // "11.30.2024" and "12.25.2024" lie after 2024-11-23; the one that
    // does not parse is simply not upcoming.
    assert_eq!(r.upcoming, 2);
}

#[test]
fn test_task_report_most_common_tie_prefers_lower() {
    let current_day = chrono::NaiveDate::from_ymd_opt(2024, 11, 23)
        .unwrap()
        .num_days_from_ce();
    let tasks = vec![
        task_due("Task 1", "11.30.2024", PriorityLevel::Medium, false),
        task_due("Task 2", "11.30.2024", PriorityLevel::High, false),
    ];
    let r = task_report(&tasks, current_day);
    assert_eq!(r.most_common, PriorityLevel::Medium);
    assert_eq!(r.total_points, 0);
}
