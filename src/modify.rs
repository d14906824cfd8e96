use vstd::prelude::*;

use crate::records::{Record, Records};
use crate::text::str_eq;
use crate::user::{transactions_stamped, User};

verus! {

/// Which of a user's lists a modification is about.
#[derive(Clone, Copy, Debug, PartialEq, Eq, Structural)]
pub enum RecordKind {
    Daily,
    Pending,
    Transaction,
}

/// The kind a command argument names, if any.
pub open spec fn kind_named(s: Seq<char>) -> Option<RecordKind> {
    if s == "daily"@ {
        Some(RecordKind::Daily)
    } else if s == "pending"@ {
        Some(RecordKind::Pending)
    } else if s == "transaction"@ {
        Some(RecordKind::Transaction)
    } else {
        None
    }
}

impl RecordKind {
    /// Reads a kind from its command argument: "daily", "pending" or
    /// "transaction".
    pub fn parse(s: &str) -> (r: Option<RecordKind>)
        ensures
            r == kind_named(s@),
    {
        proof {
            reveal_strlit("daily");
            reveal_strlit("pending");
            reveal_strlit("transaction");
        }
        if str_eq(s, "daily") {
            Some(RecordKind::Daily)
        } else if str_eq(s, "pending") {
            Some(RecordKind::Pending)
        } else if str_eq(s, "transaction") {
            Some(RecordKind::Transaction)
        } else {
            None
        }
    }
}

/// A change to one of a user's lists, with its arguments checked for type.
pub enum ModifyCommand {
    /// Append a record; a transaction without a time is stamped now.
    Insert { kind: RecordKind, name: String, points: i64, timestamp: Option<i64> },
    /// Replace the record at `index`; a transaction without a time is stamped
    /// now.
    Update { kind: RecordKind, index: i64, name: String, points: i64, timestamp: Option<i64> },
    /// Remove the record at `index`; later records move up by one.
    Delete { kind: RecordKind, index: i64 },
}

/// Why a modification was refused.
#[derive(Clone, Copy, Debug, PartialEq, Eq, Structural)]
pub enum ModifyError {
    /// The index names no record of the list.
    IndexOutOfRange,
}

/// The list of `u` that `kind` names.
pub open spec fn list_of(u: User, kind: RecordKind) -> Seq<Record> {
    match kind {
        RecordKind::Daily => u.daily.0@,
        RecordKind::Pending => u.periodic.0@,
        RecordKind::Transaction => u.transactions.0@,
    }
}

/// Whether the lists of `a` and `b` other than the one `kind` names, and
/// their ids, are the same.
pub open spec fn same_except(a: User, b: User, kind: RecordKind) -> bool {
    &&& a.id == b.id
    &&& kind != RecordKind::Daily ==> a.daily == b.daily
    &&& kind != RecordKind::Pending ==> a.periodic == b.periodic
    &&& kind != RecordKind::Transaction ==> a.transactions == b.transactions
}

/// The kind a command is about.
pub open spec fn kind_of(c: ModifyCommand) -> RecordKind {
    match c {
        ModifyCommand::Insert { kind, .. } => kind,
        ModifyCommand::Update { kind, .. } => kind,
        ModifyCommand::Delete { kind, .. } => kind,
    }
}

/// The time a written record gets: the one given, else now for a
/// transaction, else none.
pub open spec fn insert_time(kind: RecordKind, timestamp: Option<i64>, now: i64) -> Option<i64> {
    match timestamp {
        Some(t) => Some(t),
        None => if kind == RecordKind::Transaction {
            Some(now)
        } else {
            None
        },
    }
}

/// The list after command `c`, or `None` where its index is out of range.
pub open spec fn modified(s: Seq<Record>, c: ModifyCommand, now: i64) -> Option<Seq<Record>> {
    match c {
        ModifyCommand::Insert { kind, name, points, timestamp } => Some(
            s.push((name, points, insert_time(kind, timestamp, now))),
        ),
        ModifyCommand::Update { index, name, points, timestamp, .. } => if 0 <= index < s.len() {
            Some(s.update(index as int, (name, points, insert_time(kind_of(c), timestamp, now))))
        } else {
            None
        },
        ModifyCommand::Delete { index, .. } => if 0 <= index < s.len() {
            Some(s.remove(index as int))
        } else {
            None
        },
    }
}

/// Applies `c` to one list.
fn apply_to(list: &mut Records, c: ModifyCommand, now: i64) -> (r: Result<(), ModifyError>)
    ensures
        modified(old(list).0@, c, now) matches Some(s) ==> r is Ok && final(list).0@ == s,
        modified(old(list).0@, c, now) is None ==> r == Err::<(), ModifyError>(
            ModifyError::IndexOutOfRange,
        ) && *final(list) == *old(list),
{
    match c {
        ModifyCommand::Insert { kind, name, points, timestamp } => {
            let t = match timestamp {
                Some(t) => Some(t),
                None => match kind {
                    RecordKind::Transaction => Some(now),
                    _ => None,
                },
            };
            list.push(name, points, t);
            Ok(())
        },
        ModifyCommand::Update { kind, index, name, points, timestamp } => {
            if index < 0 || index as u64 >= list.0.len() as u64 {
                return Err(ModifyError::IndexOutOfRange);
            }
            let t = match timestamp {
                Some(t) => Some(t),
                None => match kind {
                    RecordKind::Transaction => Some(now),
                    _ => None,
                },
            };
            list.0.set(index as usize, (name, points, t));
            Ok(())
        },
        ModifyCommand::Delete { index, .. } => {
            if index < 0 || index as u64 >= list.0.len() as u64 {
                return Err(ModifyError::IndexOutOfRange);
            }
            list.0.remove(index as usize);
            Ok(())
        },
    }
}

/// The "modify" command of one user: inserts, updates and deletes records.
pub struct Modify<'a> {
    pub db_path: &'a str,
    pub user_id: u64,
}

impl<'a> Modify<'a> {
    /// The command for user `user_id`, stored in `db_path`.
    pub fn new(db_path: &'a str, user_id: u64) -> (r: Modify<'a>)
        ensures
            r.db_path == db_path,
            r.user_id == user_id,
    {
        Modify { db_path, user_id }
    }

    /// Applies `c` to the list of `user` it names, at time `now`. An update or
    /// a delete whose index names no record is refused, and `user` is left
    /// as it was.
    pub fn apply(&self, user: &mut User, c: ModifyCommand, now: i64) -> (r: Result<(), ModifyError>)
        ensures
            same_except(*old(user), *final(user), kind_of(c)),
            modified(list_of(*old(user), kind_of(c)), c, now) matches Some(s) ==> r is Ok && list_of(
                *final(user),
                kind_of(c),
            ) == s,
            modified(list_of(*old(user), kind_of(c)), c, now) is None ==> r == Err::<(), ModifyError>(
                ModifyError::IndexOutOfRange,
            ) && *final(user) == *old(user),
            transactions_stamped(*old(user)) ==> transactions_stamped(*final(user)),
    {
        let kind = match &c {
            ModifyCommand::Insert { kind, .. } => *kind,
            ModifyCommand::Update { kind, .. } => *kind,
            ModifyCommand::Delete { kind, .. } => *kind,
        };
        let ghost c0 = c;
        let r = match kind {
            RecordKind::Daily => apply_to(&mut user.daily, c, now),
            RecordKind::Pending => apply_to(&mut user.periodic, c, now),
            RecordKind::Transaction => apply_to(&mut user.transactions, c, now),
        };
        proof {
            if kind == RecordKind::Transaction && transactions_stamped(*old(user)) {
                let s = old(user).transactions.0@;
                if let Some(t) = modified(s, c0, now) {
                    assert forall|i: int| 0 <= i < t.len() implies (#[trigger] t[i]).2 is Some by {
                        match c0 {
                            ModifyCommand::Delete { index, .. } => {
                                if i >= index {
                                    assert(t[i] == s[i + 1]);
                                }
                            },
                            _ => {},
                        }
                    }
                }
            }
        }
        r
    }
}

} // verus!
