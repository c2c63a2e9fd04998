use s_todo::model::Todo;

#[test]
fn new_todo_is_blank() {
    let t = Todo::new(String::from("write tests"));
    assert_eq!(t.title, "write tests");
    assert_eq!(t.description, "");
    assert!(!t.completed);
    assert_eq!(t.start_time, None);
    assert_eq!(t.end_time, None);
    assert_eq!(t.total_duration, 0);
    assert!(!t.is_working());
}

#[test]
fn toggle_twice_is_one_session() {
    let mut t = Todo::new(String::from("a"));
    t.toggle_work(100);
    assert!(t.is_working());
    assert_eq!(t.start_time, Some(100));
    assert_eq!(t.end_time, None);
    t.toggle_work(250);
    assert!(!t.is_working());
    assert_eq!(t.total_duration, 150);
    assert_eq!(t.end_time, Some(250));
}

#[test]
fn sessions_accumulate() {
    let mut t = Todo::new(String::from("a"));
    t.toggle_work(100);
    t.toggle_work(150);
    t.toggle_work(200);
    t.toggle_work(260);
    assert_eq!(t.total_duration, 50 + 60);
    assert!(!t.is_working());
}

#[test]
fn restart_discards_open_session() {
    let mut t = Todo::new(String::from("a"));
    t.start_work(100);
    t.start_work(200);
    t.end_work(300);
    assert_eq!(t.total_duration, 100);
}

#[test]
fn end_without_start_is_noop() {
    let mut t = Todo::new(String::from("a"));
    t.end_work(500);
    assert_eq!(t.total_duration, 0);
    assert_eq!(t.end_time, None);
}

#[test]
fn end_is_keyed_on_recorded_start() {
    // Ending again while a start is still recorded credits the span from
    // that same start once more.
    let mut t = Todo::new(String::from("a"));
    t.start_work(100);
    t.end_work(200);
    assert_eq!(t.total_duration, 100);
    t.end_work(300);
    assert_eq!(t.total_duration, 300);
}

#[test]
fn completing_stops_the_timer() {
    let mut t = Todo::new(String::from("a"));
    t.start_work(100);
    t.toggle_completed(160);
    assert!(t.completed);
    assert!(!t.is_working());
    assert_eq!(t.total_duration, 60);
    assert_eq!(t.end_time, Some(160));
}

#[test]
fn uncompleting_leaves_open_session_running() {
    let mut t = Todo::new(String::from("a"));
    t.toggle_completed(50);
    assert!(t.completed);
    t.start_work(100);
    assert!(t.is_working());
    t.toggle_completed(200);
    assert!(!t.completed);
    assert!(t.is_working());
    assert_eq!(t.total_duration, 0);
}
