use task_hero::create_task;

#[test]
fn test_create_task() {
    let task = create_task("Learn Rust");
    assert_eq!(task.title, "Learn Rust");
    assert!(!task.completed);
}

#[test]
fn test_complete_task() {
    let mut task = create_task("Learn Rust");
    task.complete();
    assert!(task.completed);
}
