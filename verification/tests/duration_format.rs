use s_todo::duration::format_seconds;
use s_todo::model::Todo;

#[test]
fn zero_renders_empty() {
    assert_eq!(format_seconds(0), "");
}

#[test]
fn seconds_only() {
    assert_eq!(format_seconds(45), "45s");
    assert_eq!(format_seconds(1), "1s");
    assert_eq!(format_seconds(59), "59s");
}

#[test]
fn minutes_pair_with_seconds() {
    assert_eq!(format_seconds(125), "2m 5s");
    assert_eq!(format_seconds(60), "1m");
    assert_eq!(format_seconds(61), "1m 1s");
}

#[test]
fn hours_drop_trailing_seconds() {
    assert_eq!(format_seconds(3665), "1h 1m");
    assert_eq!(format_seconds(3600), "1h");
    assert_eq!(format_seconds(3605), "1h 5s");
}

#[test]
fn days_show_two_units() {
    assert_eq!(format_seconds(90000), "1d 1h");
    assert_eq!(format_seconds(86400), "1d");
    assert_eq!(format_seconds(86460), "1d 1m");
    assert_eq!(format_seconds(86401), "1d");
}

#[test]
fn months_show_days_or_hours() {
    assert_eq!(format_seconds(2700000), "1mo 1d");
    assert_eq!(format_seconds(2592000), "1mo");
    assert_eq!(format_seconds(2595600), "1mo 1h");
    assert_eq!(format_seconds(2 * 2592000 + 3 * 86400), "2mo 3d");
    assert_eq!(format_seconds(2592000 + 59), "1mo");
}

#[test]
fn todo_formats_its_total() {
    let mut todo = Todo::new(String::from("report"));
    todo.start_work(1000);
    todo.end_work(1125);
    assert_eq!(todo.format_duration(), "2m 5s");
}

#[test]
fn extreme_totals_still_render() {
    let text = format_seconds(u64::MAX);
    assert!(text.ends_with("mo") || text.contains("mo "));
    assert!(!text.is_empty());
}
