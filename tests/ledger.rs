use botshop::commands::Command;
use botshop::info::Info;
use botshop::modify::{Modify, ModifyCommand, ModifyError, RecordKind};
use botshop::records::{parse_record, RecordError};
use botshop::session::{Collector, Scope, SessionAction, SessionEvent, SessionState, DEFAULT_TIMEOUT_SECS};
use botshop::shop::Shop;
use botshop::text::parse_i64;
use botshop::user::User;

#[test]
fn ledger_sums_earned_spent_and_balance() {
    let mut user = User::new(9);
    user.transactions.push("task".to_owned(), 8, Some(1));
    user.transactions.push("snack".to_owned(), -5, Some(2));
    user.transactions.push("task".to_owned(), 3, Some(3));
    let info = Info::new(user);
    assert_eq!(info.points_gathered(), 11);
    assert_eq!(info.points_spent(), 5);
    assert_eq!(info.points_balance(), 6);
}

#[test]
fn ledger_does_not_overflow() {
    let mut user = User::new(9);
    user.transactions.push("a".to_owned(), i64::MAX, Some(1));
    user.transactions.push("b".to_owned(), i64::MAX, Some(1));
    user.transactions.push("c".to_owned(), i64::MIN, Some(1));
    let info = Info::new(user);
    assert_eq!(info.points_gathered(), 2 * (i64::MAX as i128));
    assert_eq!(info.points_spent(), -(i64::MIN as i128));
    assert_eq!(info.points_balance(), i64::MAX as i128 - 1);
}

#[test]
fn insert_stamps_transactions_only() {
    let modify = Modify::new("users.db", 1);
    let mut user = User::new(1);
    let c = ModifyCommand::Insert { kind: RecordKind::Transaction, name: "gift".to_owned(), points: 4, timestamp: None };
    assert_eq!(modify.apply(&mut user, c, 777), Ok(()));
    assert_eq!(user.transactions.0, vec![("gift".to_owned(), 4, Some(777))]);
    let c = ModifyCommand::Insert { kind: RecordKind::Daily, name: "walk".to_owned(), points: 2, timestamp: None };
    assert_eq!(modify.apply(&mut user, c, 777), Ok(()));
    assert_eq!(user.daily.0, vec![("walk".to_owned(), 2, None)]);
    let c = ModifyCommand::Insert { kind: RecordKind::Pending, name: "read".to_owned(), points: 2, timestamp: Some(5) };
    assert_eq!(modify.apply(&mut user, c, 777), Ok(()));
    assert_eq!(user.periodic.0, vec![("read".to_owned(), 2, Some(5))]);
}

#[test]
fn update_and_delete_check_the_index() {
    let modify = Modify::new("users.db", 1);
    let mut user = User::new(1);
    user.daily.push("a".to_owned(), 1, None);
    user.daily.push("b".to_owned(), 2, None);
    let c = ModifyCommand::Update { kind: RecordKind::Daily, index: 2, name: "x".to_owned(), points: 0, timestamp: None };
    assert_eq!(modify.apply(&mut user, c, 0), Err(ModifyError::IndexOutOfRange));
    let c = ModifyCommand::Delete { kind: RecordKind::Daily, index: -1 };
    assert_eq!(modify.apply(&mut user, c, 0), Err(ModifyError::IndexOutOfRange));
    assert_eq!(user.daily.len(), 2);
    let c = ModifyCommand::Update { kind: RecordKind::Daily, index: 1, name: "c".to_owned(), points: 3, timestamp: Some(9) };
    assert_eq!(modify.apply(&mut user, c, 0), Ok(()));
    assert_eq!(user.daily.0[1], ("c".to_owned(), 3, Some(9)));
    let c = ModifyCommand::Delete { kind: RecordKind::Daily, index: 0 };
    assert_eq!(modify.apply(&mut user, c, 0), Ok(()));
    assert_eq!(user.daily.0, vec![("c".to_owned(), 3, Some(9))]);
}

#[test]
fn record_kinds_and_commands_by_name() {
    assert_eq!(RecordKind::parse("daily"), Some(RecordKind::Daily));
    assert_eq!(RecordKind::parse("pending"), Some(RecordKind::Pending));
    assert_eq!(RecordKind::parse("transaction"), Some(RecordKind::Transaction));
    assert_eq!(RecordKind::parse("transactions"), None);
    assert_eq!(Command::parse("daily"), Some(Command::Daily));
    assert_eq!(Command::parse("pending"), Some(Command::Pending));
    assert_eq!(Command::parse("transactions"), Some(Command::Transactions));
    assert_eq!(Command::parse("nya"), Some(Command::Nya));
    assert_eq!(Command::parse("shop"), None);
}

#[test]
fn integers_are_read_in_decimal() {
    assert_eq!(parse_i64("42"), Some(42));
    assert_eq!(parse_i64("+7"), Some(7));
    assert_eq!(parse_i64("-3222"), Some(-3222));
    assert_eq!(parse_i64("9223372036854775807"), Some(i64::MAX));
    assert_eq!(parse_i64("-9223372036854775808"), Some(i64::MIN));
    assert_eq!(parse_i64("9223372036854775808"), None);
    assert_eq!(parse_i64(""), None);
    assert_eq!(parse_i64("-"), None);
    assert_eq!(parse_i64("1 "), None);
    assert_eq!(parse_i64("None"), None);
}

#[test]
fn task_rows_are_read() {
    assert_eq!(parse_record("task1", "8", "None"), Ok(("task1".to_owned(), 8, None)));
    assert_eq!(parse_record("task2", "8", "3222"), Ok(("task2".to_owned(), 8, Some(3222))));
    assert_eq!(parse_record("task3", "eight", "None"), Err(RecordError::BadPoints));
    assert_eq!(parse_record("task4", "8", "later"), Err(RecordError::BadTimestamp));
}

#[test]
fn collector_runs_render_collect_close() {
    let mut c = Collector::new(Scope::AuthorOnly, 42, DEFAULT_TIMEOUT_SECS);
    assert_eq!(c.step(SessionEvent::Component { user_id: 42 }), SessionAction::Ignore);
    assert_eq!(c.step(SessionEvent::Acknowledged), SessionAction::Subscribe { timeout_secs: 15 });
    assert_eq!(c.state, SessionState::Collecting);
    assert_eq!(c.step(SessionEvent::Component { user_id: 42 }), SessionAction::Dispatch);
    assert_eq!(c.step(SessionEvent::Component { user_id: 43 }), SessionAction::Ignore);
    assert_eq!(c.step(SessionEvent::TimedOut), SessionAction::Release);
    assert_eq!(c.state, SessionState::Closed);
    assert_eq!(c.step(SessionEvent::Component { user_id: 42 }), SessionAction::Ignore);
    assert_eq!(c.state, SessionState::Closed);
}

#[test]
fn any_user_scope_admits_everyone() {
    let mut c = Collector::new(Scope::AnyUser, 42, 30);
    assert_eq!(c.step(SessionEvent::Acknowledged), SessionAction::Subscribe { timeout_secs: 30 });
    assert_eq!(c.step(SessionEvent::Component { user_id: 43 }), SessionAction::Dispatch);
}

#[test]
fn new_user_and_shop_start_empty() {
    let user = User::new(12);
    assert_eq!(user.id, 12);
    assert_eq!(user.daily.len() + user.periodic.len() + user.transactions.len(), 0);
    assert!(Shop::new().0.is_empty());
}

#[test]
fn updated_transactions_keep_a_time() {
    let modify = Modify::new("users.db", 1);
    let mut user = User::new(1);
    user.transactions.push("gift".to_owned(), 4, Some(10));
    let c = ModifyCommand::Update { kind: RecordKind::Transaction, index: 0, name: "gift".to_owned(), points: 6, timestamp: None };
    assert_eq!(modify.apply(&mut user, c, 500), Ok(()));
    assert_eq!(user.transactions.0, vec![("gift".to_owned(), 6, Some(500))]);
}
