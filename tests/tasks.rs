use botshop::clock::{get_today, get_tomorrow, seconds_until_refresh};
use botshop::records::Records;
use botshop::tasks::{elapsed_hms, Daily, Pending, TaskError, TaskInteraction, TaskList, TaskStatus};
use botshop::user::User;

fn two_tasks() -> User {
    let mut user = User::new(7);
    user.daily.push("task1".to_owned(), 8, None);
    user.daily.push("task2".to_owned(), 8, Some(3222));
    user
}

#[test]
fn render_then_complete_scenario() {
    let now: i64 = 100_000;
    let mut daily = Daily::new("users.db", two_tasks(), now);
    let summary = daily.session.render(now);
    assert_eq!(summary.rows.len(), 2);
    assert_eq!(summary.rows[0].name, "task1");
    assert_eq!(summary.rows[0].status, TaskStatus::NotCompleted);
    let ago = now - 3222;
    assert_eq!(
        summary.rows[1].status,
        TaskStatus::Completed { hours: ago / 3600, minutes: ago % 3600 / 60, seconds: ago % 60 }
    );
    assert_eq!(summary.completed, 1);
    assert_eq!(summary.total, 2);
    let offered: Vec<&str> = summary.options.iter().map(|o| o.value.as_str()).collect();
    assert_eq!(offered, vec!["task1"]);
    assert_eq!(summary.options[0].label, "task1");
    assert_eq!(summary.options[0].points, 8);

    assert_eq!(daily.session.complete_task_at("task1", now), Ok(()));
    assert_eq!(daily.session.user.daily.0[0], ("task1".to_owned(), 8, Some(now)));
    assert_eq!(daily.session.user.daily.0[1], ("task2".to_owned(), 8, Some(3222)));
    assert_eq!(daily.session.user.transactions.0, vec![("task1".to_owned(), 8, Some(now))]);
    assert!(daily.session.render(now).options.is_empty());
}

#[test]
fn completing_a_single_pending_task_stamps_it() {
    let start: i64 = 5_000;
    let mut session = TaskInteraction::new("users.db", two_tasks(), TaskList::Daily, start);
    assert_eq!(session.complete_task_at("task1", start + 30), Ok(()));
    let stamped = session.user.daily.0[0].2.unwrap();
    assert!(stamped >= start);
    assert_eq!(session.user.transactions.len(), 1);
    assert_eq!(session.user.transactions.0[0], ("task1".to_owned(), 8, Some(stamped)));
}

#[test]
fn completing_with_the_clock_stamps_now() {
    let mut session = TaskInteraction::new("users.db", two_tasks(), TaskList::Daily, 0);
    assert_eq!(session.complete_task("task1"), Ok(()));
    let stamped = session.user.daily.0[0].2.unwrap();
    assert!(stamped > 1_600_000_000);
    assert_eq!(session.user.transactions.0[0].2, Some(stamped));
}

#[test]
fn completing_an_unknown_name_changes_nothing() {
    let mut session = TaskInteraction::new("users.db", two_tasks(), TaskList::Daily, 0);
    assert_eq!(session.complete_task_at("task9", 50), Err(TaskError::NotFound));
    assert_eq!(session.user.daily.0, two_tasks().daily.0);
    assert_eq!(session.user.transactions.len(), 0);
}

#[test]
fn first_of_equal_names_is_completed() {
    let mut user = User::new(1);
    user.periodic.push("same".to_owned(), 2, Some(10));
    user.periodic.push("same".to_owned(), 3, None);
    let mut session = TaskInteraction::new("users.db", user, TaskList::Periodic, 0);
    assert_eq!(session.complete_task_at("same", 99), Ok(()));
    assert_eq!(session.user.periodic.0[0], ("same".to_owned(), 2, Some(99)));
    assert_eq!(session.user.periodic.0[1], ("same".to_owned(), 3, None));
    assert_eq!(session.user.transactions.0, vec![("same".to_owned(), 2, Some(99))]);
    assert_eq!(session.user.daily.len(), 0);
}

#[test]
fn empty_list_renders_empty() {
    let session = TaskInteraction::new("users.db", User::new(2), TaskList::Daily, 0);
    let summary = session.render(10);
    assert_eq!(summary.total, 0);
    assert!(summary.rows.is_empty());
    assert!(summary.options.is_empty());
}

#[test]
fn elapsed_time_splits_into_hours_minutes_seconds() {
    assert_eq!(elapsed_hms(3 * 3600 + 25 * 60 + 7, 0), (3, 25, 7));
    assert_eq!(elapsed_hms(1000, 1000), (0, 0, 0));
    assert_eq!(elapsed_hms(0, 3661), (-1, -1, -1));
    assert_eq!(elapsed_hms(i64::MAX, i64::MIN).0, (u64::MAX / 3600) as i64);
}

#[test]
fn pending_keeps_open_tasks_and_those_done_today() {
    let day: i64 = 86_400;
    let now = 20_000 * day + 500;
    let mut user = User::new(3);
    user.periodic.push("open".to_owned(), 1, None);
    user.periodic.push("today".to_owned(), 2, Some(20_000 * day + 10));
    user.periodic.push("yesterday".to_owned(), 3, Some(20_000 * day - 10));
    user.periodic.push("tomorrow".to_owned(), 4, Some(20_001 * day));
    let pending = Pending::new("users.db", user, now);
    let names: Vec<&str> = pending.session.user.periodic.0.iter().map(|r| r.0.as_str()).collect();
    assert_eq!(names, vec!["open", "today"]);
    assert_eq!(pending.session.list, TaskList::Periodic);
}

#[test]
fn day_boundaries_follow_utc_midnight() {
    let day: i64 = 86_400;
    assert_eq!(get_today(3 * day + 5), Some(3 * day));
    assert_eq!(get_tomorrow(3 * day + 5), Some(4 * day));
    assert_eq!(get_today(-1), Some(-day));
    assert_eq!(seconds_until_refresh(3 * day + 5), Some(day - 5));
    assert_eq!(seconds_until_refresh(3 * day), Some(day));
}

#[test]
fn records_keep_insertion_order() {
    let mut records = Records::new();
    assert_eq!(records.len(), 0);
    records.push("a".to_owned(), 1, None);
    records.push("b".to_owned(), -2, Some(4));
    assert_eq!(records.len(), 2);
    assert_eq!(records.get(1), &("b".to_owned(), -2, Some(4)));
    let names: Vec<&str> = records.iter().map(|r| r.0.as_str()).collect();
    assert_eq!(names, vec!["a", "b"]);
}
