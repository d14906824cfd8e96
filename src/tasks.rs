use vstd::prelude::*;

use crate::clock::{current_timestamp, day_number, day_of_timestamp};
use crate::records::{Record, Records};
use crate::text::str_eq;
use crate::user::{transactions_stamped, User};

verus! {

/// Why a task could not be completed.
#[derive(Clone, Copy, Debug, PartialEq, Eq, Structural)]
pub enum TaskError {
    /// No record carries the selected name.
    NotFound,
}

/// Whether record `i` is the first one named `name`.
pub open spec fn is_first_named(s: Seq<Record>, name: Seq<char>, i: int) -> bool {
    &&& 0 <= i < s.len()
    &&& s[i].0@ == name
    &&& forall|j: int| 0 <= j < i ==> s[j].0@ != name
}

/// Whether some record is named `name`.
pub open spec fn has_named(s: Seq<Record>, name: Seq<char>) -> bool {
    exists|i: int| 0 <= i < s.len() && s[i].0@ == name
}

/// Record `r` marked complete at `now`.
pub open spec fn stamped(r: Record, now: i64) -> Record {
    (r.0, r.1, Some(now))
}

/// The outcome of completing `name` at `now`: the first record of `tasks`
/// with that name is stamped and a matching transaction is appended; with no
/// such record the result is `NotFound` and both lists stay as they were.
pub open spec fn completes(
    tasks: Seq<Record>,
    transactions: Seq<Record>,
    name: Seq<char>,
    now: i64,
    r: Result<(), TaskError>,
    tasks_after: Seq<Record>,
    transactions_after: Seq<Record>,
) -> bool {
    if has_named(tasks, name) {
        &&& r is Ok
        &&& exists|i: int|
            #![trigger tasks[i]]
            is_first_named(tasks, name, i) && tasks_after == tasks.update(i, stamped(tasks[i], now))
                && transactions_after == transactions.push(stamped(tasks[i], now))
    } else {
        &&& r == Err::<(), TaskError>(TaskError::NotFound)
        &&& tasks_after == tasks
        &&& transactions_after == transactions
    }
}

/// Completes the first record of `tasks` named `task_name` at time `now`, and
/// appends the matching transaction. A record that was already complete is
/// stamped again. Without a match nothing changes.
pub fn complete_record(tasks: &mut Records, transactions: &mut Records, task_name: &str, now: i64)
    -> (r: Result<(), TaskError>)
    ensures
        completes(
            old(tasks).0@,
            old(transactions).0@,
            task_name@,
            now,
            r,
            final(tasks).0@,
            final(transactions).0@,
        ),
{
    let n = tasks.0.len();
    let mut i: usize = 0;
    while i < n
        invariant
            *tasks == *old(tasks),
            *transactions == *old(transactions),
            n == tasks.0@.len(),
            i <= n,
            forall|j: int| 0 <= j < i ==> tasks.0@[j].0@ != task_name@,
        decreases n - i,
    {
        if str_eq(tasks.0[i].0.as_str(), task_name) {
            let name = tasks.0[i].0.clone();
            let points = tasks.0[i].1;
            let entry = (name.clone(), points, Some(now));
            tasks.0.set(i, (name, points, Some(now)));
            transactions.0.push(entry);
            assert(is_first_named(old(tasks).0@, task_name@, i as int));
            return Ok(());
        }
        i = i + 1;
    }
    Err(TaskError::NotFound)
}

/// Completing the one pending record named `name` at a time `now` no earlier
/// than the session's start stamps that record with `now` and appends one
/// transaction with its name, its points and that time.
pub proof fn lemma_complete_single_pending(
    tasks: Seq<Record>,
    transactions: Seq<Record>,
    name: Seq<char>,
    started_at: i64,
    now: i64,
    r: Result<(), TaskError>,
    tasks_after: Seq<Record>,
    transactions_after: Seq<Record>,
    k: int,
)
    requires
        0 <= k < tasks.len(),
        tasks[k].0@ == name,
        tasks[k].2 is None,
        forall|j: int| 0 <= j < tasks.len() && j != k ==> tasks[j].0@ != name,
        started_at <= now,
        completes(tasks, transactions, name, now, r, tasks_after, transactions_after),
    ensures
        r is Ok,
        tasks_after.len() == tasks.len(),
        tasks_after[k].0 == tasks[k].0,
        tasks_after[k].1 == tasks[k].1,
        tasks_after[k].2 == Some(now),
        tasks_after[k].2->0 >= started_at,
        forall|j: int| 0 <= j < tasks.len() && j != k ==> tasks_after[j] == tasks[j],
        transactions_after.len() == transactions.len() + 1,
        transactions_after.last() == (tasks[k].0, tasks[k].1, Some(now)),
        transactions_after.drop_last() == transactions,
{
    assert(has_named(tasks, name));
    let i = choose|i: int|
        #![trigger tasks[i]]
        is_first_named(tasks, name, i) && tasks_after == tasks.update(i, stamped(tasks[i], now))
            && transactions_after == transactions.push(stamped(tasks[i], now));
    assert(i == k);
    assert(transactions_after.drop_last() =~= transactions);
}

/// Completing a name that no record carries fails with `NotFound` and leaves
/// both lists as they were.
pub proof fn lemma_complete_unknown_name(
    tasks: Seq<Record>,
    transactions: Seq<Record>,
    name: Seq<char>,
    now: i64,
    r: Result<(), TaskError>,
    tasks_after: Seq<Record>,
    transactions_after: Seq<Record>,
)
    requires
        forall|j: int| 0 <= j < tasks.len() ==> tasks[j].0@ != name,
        completes(tasks, transactions, name, now, r, tasks_after, transactions_after),
    ensures
        r == Err::<(), TaskError>(TaskError::NotFound),
        tasks_after == tasks,
        transactions_after == transactions,
{
}

/// How a record's progress is shown.
#[derive(Clone, Copy, Debug, PartialEq, Eq, Structural)]
pub enum TaskStatus {
    /// Completed this long ago.
    Completed { hours: i64, minutes: i64, seconds: i64 },
    NotCompleted,
}

/// A span of `e` seconds as hours, minutes and seconds, each truncated
/// toward zero and carrying the span's sign.
pub open spec fn hms_of(e: int) -> (int, int, int) {
    if e < 0 {
        let a = -e;
        (-(a / 3600), -(a % 3600 / 60), -(a % 3600 % 60))
    } else {
        (e / 3600, e % 3600 / 60, e % 3600 % 60)
    }
}

/// The status shown for a record completed at `completed`, seen at `now`.
pub open spec fn status_of(completed: Option<i64>, now: i64) -> TaskStatus {
    match completed {
        Some(t) => {
            let (h, m, s) = hms_of(now - t);
            TaskStatus::Completed { hours: h as i64, minutes: m as i64, seconds: s as i64 }
        },
        None => TaskStatus::NotCompleted,
    }
}

/// Splits the time from `then` to `now` into hours, minutes and seconds.
pub fn elapsed_hms(now: i64, then: i64) -> (r: (i64, i64, i64))
    ensures
        r.0 == hms_of(now - then).0,
        r.1 == hms_of(now - then).1,
        r.2 == hms_of(now - then).2,
{
    let e: i128 = now as i128 - then as i128;
    let a: u128 = if e < 0 {
        (0 - e) as u128
    } else {
        e as u128
    };
    proof {
        assert(a as int <= 0x2_0000_0000_0000_0000);
        assert(a as int / 3600 <= 0x1000_0000_0000_0000) by (nonlinear_arith)
            requires
                a as int <= 0x2_0000_0000_0000_0000,
        ;
        assert(a as int == e || a as int == -e);
        assert(a % 3600 < 3600);
        assert(a % 3600 / 60 < 60);
        assert(a % 3600 % 60 < 60);
    }
    let h = (a / 3600) as i64;
    let m = (a % 3600 / 60) as i64;
    let s = (a % 3600 % 60) as i64;
    if e < 0 {
        (0 - h, 0 - m, 0 - s)
    } else {
        (h, m, s)
    }
}

/// One line of a task summary.
pub struct TaskRow {
    pub name: String,
    pub points: i64,
    pub status: TaskStatus,
}

/// One choice of the "complete a task" selector.
pub struct TaskOption {
    pub label: String,
    pub value: String,
    pub points: i64,
}

/// A rendered task list: a row per record, the completion counts, and a
/// selector offering the pending records (no selector when it is empty).
pub struct TaskSummary {
    pub rows: Vec<TaskRow>,
    pub completed: usize,
    pub total: usize,
    pub options: Vec<TaskOption>,
}

/// How many records are complete.
pub open spec fn completed_count(s: Seq<Record>) -> nat
    decreases s.len(),
{
    if s.len() == 0 {
        0
    } else {
        completed_count(s.drop_last()) + if s.last().2 is Some {
            1nat
        } else {
            0nat
        }
    }
}

/// Names and points of the pending records, in order.
pub open spec fn pending_of(s: Seq<Record>) -> Seq<(Seq<char>, i64)>
    decreases s.len(),
{
    if s.len() == 0 {
        Seq::empty()
    } else if s.last().2 is None {
        pending_of(s.drop_last()).push((s.last().0@, s.last().1))
    } else {
        pending_of(s.drop_last())
    }
}

proof fn lemma_completed_count_bound(s: Seq<Record>)
    ensures
        completed_count(s) <= s.len(),
    decreases s.len(),
{
    if s.len() > 0 {
        lemma_completed_count_bound(s.drop_last());
    }
}

/// Renders `tasks` as seen at `now`.
pub fn summarize(tasks: &Records, now: i64) -> (r: TaskSummary)
    ensures
        r.rows@.len() == tasks.0@.len(),
        forall|i: int|
            0 <= i < tasks.0@.len() ==> {
                &&& (#[trigger] r.rows@[i]).name@ == tasks.0@[i].0@
                &&& r.rows@[i].points == tasks.0@[i].1
                &&& r.rows@[i].status == status_of(tasks.0@[i].2, now)
            },
        r.completed == completed_count(tasks.0@),
        r.total == tasks.0@.len(),
        r.options@.len() == pending_of(tasks.0@).len(),
        forall|k: int|
            0 <= k < r.options@.len() ==> {
                &&& (#[trigger] r.options@[k]).label@ == pending_of(tasks.0@)[k].0
                &&& r.options@[k].value@ == pending_of(tasks.0@)[k].0
                &&& r.options@[k].points == pending_of(tasks.0@)[k].1
            },
{
    let n = tasks.0.len();
    let mut rows: Vec<TaskRow> = Vec::new();
    let mut options: Vec<TaskOption> = Vec::new();
    let mut completed: usize = 0;
    let mut i: usize = 0;
    while i < n
        invariant
            n == tasks.0@.len(),
            i <= n,
            rows@.len() == i,
            forall|j: int|
                0 <= j < i ==> {
                    &&& (#[trigger] rows@[j]).name@ == tasks.0@[j].0@
                    &&& rows@[j].points == tasks.0@[j].1
                    &&& rows@[j].status == status_of(tasks.0@[j].2, now)
                },
            completed == completed_count(tasks.0@.subrange(0, i as int)),
            options@.len() == pending_of(tasks.0@.subrange(0, i as int)).len(),
            forall|k: int|
                0 <= k < options@.len() ==> {
                    &&& (#[trigger] options@[k]).label@ == pending_of(
                        tasks.0@.subrange(0, i as int),
                    )[k].0
                    &&& options@[k].value@ == pending_of(tasks.0@.subrange(0, i as int))[k].0
                    &&& options@[k].points == pending_of(tasks.0@.subrange(0, i as int))[k].1
                },
        decreases n - i,
    {
        let ghost prefix = tasks.0@.subrange(0, i as int);
        let ghost next = tasks.0@.subrange(0, i as int + 1);
        proof {
            assert(next.drop_last() =~= prefix);
            lemma_completed_count_bound(prefix);
        }
        let record = &tasks.0[i];
        let status = match record.2 {
            Some(t) => {
                let (h, m, s) = elapsed_hms(now, t);
                TaskStatus::Completed { hours: h, minutes: m, seconds: s }
            },
            None => {
                options.push(
                    TaskOption { label: record.0.clone(), value: record.0.clone(), points: record.1 },
                );
                TaskStatus::NotCompleted
            },
        };
        if record.2.is_some() {
            completed = completed + 1;
        }
        rows.push(TaskRow { name: record.0.clone(), points: record.1, status });
        i = i + 1;
    }
    proof {
        assert(tasks.0@.subrange(0, n as int) =~= tasks.0@);
    }
    TaskSummary { rows, completed, total: n, options }
}

/// Which of a user's lists a task session works on.
#[derive(Clone, Copy, Debug, PartialEq, Eq, Structural)]
pub enum TaskList {
    Daily,
    Periodic,
}

/// The records of list `l` of user `u`.
pub open spec fn tasks_of(u: User, l: TaskList) -> Seq<Record> {
    match l {
        TaskList::Daily => u.daily.0@,
        TaskList::Periodic => u.periodic.0@,
    }
}

/// Whether the list that a session does not work on, and the user's id,
/// are the same in `a` and `b`.
pub open spec fn same_outside(a: User, b: User, l: TaskList) -> bool {
    &&& a.id == b.id
    &&& match l {
        TaskList::Daily => a.periodic == b.periodic,
        TaskList::Periodic => a.daily == b.daily,
    }
}

/// A session over one of a user's task lists: it shows the list and completes
/// the task the user picks. `db_file` names where the user is stored.
pub struct TaskInteraction {
    pub db_file: String,
    pub user: User,
    pub list: TaskList,
    /// When the session began.
    pub started_at: i64,
}

impl TaskInteraction {
    /// A session over list `list` of `user`, begun at `started_at`.
    pub fn new(db_file: &str, user: User, list: TaskList, started_at: i64) -> (r: TaskInteraction)
        ensures
            r.db_file@ == db_file@,
            r.user == user,
            r.list == list,
            r.started_at == started_at,
    {
        TaskInteraction { db_file: db_file.to_owned(), user, list, started_at }
    }

    /// The records the session works on.
    pub fn tasks(&self) -> (r: &Records)
        ensures
            r.0@ == tasks_of(self.user, self.list),
    {
        match self.list {
            TaskList::Daily => &self.user.daily,
            TaskList::Periodic => &self.user.periodic,
        }
    }

    /// Completes the first record named `task_name` at time `now` and records
    /// the transaction; `NotFound`, with nothing changed, where no record has
    /// that name.
    pub fn complete_task_at(&mut self, task_name: &str, now: i64) -> (r: Result<(), TaskError>)
        ensures
            completes(
                tasks_of(old(self).user, old(self).list),
                old(self).user.transactions.0@,
                task_name@,
                now,
                r,
                tasks_of(final(self).user, final(self).list),
                final(self).user.transactions.0@,
            ),
            same_outside(old(self).user, final(self).user, old(self).list),
            final(self).list == old(self).list,
            final(self).db_file == old(self).db_file,
            final(self).started_at == old(self).started_at,
            transactions_stamped(old(self).user) ==> transactions_stamped(final(self).user),
    {
        let r = match self.list {
            TaskList::Daily => complete_record(
                &mut self.user.daily,
                &mut self.user.transactions,
                task_name,
                now,
            ),
            TaskList::Periodic => complete_record(
                &mut self.user.periodic,
                &mut self.user.transactions,
                task_name,
                now,
            ),
        };
        proof {
            let s = old(self).user.transactions.0@;
            let t = self.user.transactions.0@;
            if transactions_stamped(old(self).user) && r is Ok {
                assert forall|i: int| 0 <= i < t.len() implies (#[trigger] t[i]).2 is Some by {
                    if i < s.len() {
                        assert(t[i] == s[i]);
                    }
                }
            }
        }
        r
    }

    /// Completes the first record named `task_name` at the current time, as
    /// `complete_task_at` does.
    pub fn complete_task(&mut self, task_name: &str) -> (r: Result<(), TaskError>)
        ensures
            exists|now: i64|
                completes(
                    tasks_of(old(self).user, old(self).list),
                    old(self).user.transactions.0@,
                    task_name@,
                    now,
                    r,
                    tasks_of(final(self).user, final(self).list),
                    final(self).user.transactions.0@,
                ),
            same_outside(old(self).user, final(self).user, old(self).list),
            final(self).list == old(self).list,
            final(self).db_file == old(self).db_file,
            final(self).started_at == old(self).started_at,
            transactions_stamped(old(self).user) ==> transactions_stamped(final(self).user),
    {
        let now = current_timestamp();
        self.complete_task_at(task_name, now)
    }

    /// The session's list rendered as seen at `now`.
    pub fn render(&self, now: i64) -> (r: TaskSummary)
        ensures
            r.rows@.len() == tasks_of(self.user, self.list).len(),
            forall|i: int|
                0 <= i < tasks_of(self.user, self.list).len() ==> {
                    &&& (#[trigger] r.rows@[i]).name@ == tasks_of(self.user, self.list)[i].0@
                    &&& r.rows@[i].points == tasks_of(self.user, self.list)[i].1
                    &&& r.rows@[i].status == status_of(tasks_of(self.user, self.list)[i].2, now)
                },
            r.completed == completed_count(tasks_of(self.user, self.list)),
            r.total == tasks_of(self.user, self.list).len(),
            r.options@.len() == pending_of(tasks_of(self.user, self.list)).len(),
            forall|k: int|
                0 <= k < r.options@.len() ==> {
                    &&& (#[trigger] r.options@[k]).label@ == pending_of(
                        tasks_of(self.user, self.list),
                    )[k].0
                    &&& r.options@[k].value@ == pending_of(tasks_of(self.user, self.list))[k].0
                    &&& r.options@[k].points == pending_of(tasks_of(self.user, self.list))[k].1
                },
    {
        summarize(self.tasks(), now)
    }
}

/// The daily tasks of a user: every task, complete or not.
pub struct Daily {
    pub session: TaskInteraction,
}

impl Daily {
    /// A session over `user`'s daily tasks, begun at `now`.
    pub fn new(db_file: &str, user: User, now: i64) -> (r: Daily)
        ensures
            r.session.db_file@ == db_file@,
            r.session.user == user,
            r.session.list == TaskList::Daily,
            r.session.started_at == now,
    {
        Daily { session: TaskInteraction::new(db_file, user, TaskList::Daily, now) }
    }
}

/// Whether a record stays on today's pending list: it is not complete, or it
/// was completed on the same UTC day as `now`.
pub open spec fn kept_today(r: Record, now: i64) -> bool {
    match r.2 {
        None => true,
        Some(t) => day_of_timestamp(t) is Some && day_of_timestamp(t) == day_of_timestamp(now),
    }
}

/// The records of `records` that stay on today's list, in order.
pub fn retain_today(records: &Records, now: i64) -> (r: Records)
    ensures
        r.0@ == records.0@.filter(|x: Record| kept_today(x, now)),
{
    let today = day_number(now);
    let n = records.0.len();
    let mut out: Vec<Record> = Vec::new();
    let mut i: usize = 0;
    while i < n
        invariant
            n == records.0@.len(),
            i <= n,
            today == day_of_timestamp(now),
            out@ == records.0@.subrange(0, i as int).filter(|x: Record| kept_today(x, now)),
        decreases n - i,
    {
        let ghost next = records.0@.subrange(0, i as int + 1);
        proof {
            reveal(Seq::filter);
            assert(next.drop_last() =~= records.0@.subrange(0, i as int));
            assert(next.last() == records.0@[i as int]);
        }
        let record = &records.0[i];
        let keep = match record.2 {
            None => true,
            Some(t) => {
                let d = day_number(t);
                match d {
                    Some(dv) => match today {
                        Some(tv) => dv == tv,
                        None => false,
                    },
                    None => false,
                }
            },
        };
        if keep {
            out.push((record.0.clone(), record.1, record.2));
        }
        proof {
            reveal(Seq::filter);
        }
        i = i + 1;
    }
    proof {
        assert(records.0@.subrange(0, n as int) =~= records.0@);
    }
    Records(out)
}

/// The periodic tasks of a user that are still pending, or were completed
/// today.
pub struct Pending {
    pub session: TaskInteraction,
}

impl Pending {
    /// A session, begun at `now`, over `user`'s periodic tasks, without those
    /// completed before today.
    pub fn new(db_file: &str, user: User, now: i64) -> (r: Pending)
        ensures
            r.session.db_file@ == db_file@,
            r.session.user.id == user.id,
            r.session.user.daily == user.daily,
            r.session.user.transactions == user.transactions,
            r.session.user.periodic.0@ == user.periodic.0@.filter(|x: Record| kept_today(x, now)),
            r.session.list == TaskList::Periodic,
            r.session.started_at == now,
    {
        let periodic = retain_today(&user.periodic, now);
        let user = User {
            id: user.id,
            daily: user.daily,
            periodic,
            transactions: user.transactions,
        };
        Pending { session: TaskInteraction::new(db_file, user, TaskList::Periodic, now) }
    }
}

} // verus!
