use vstd::prelude::*;

use crate::text::{i64_of, parse_i64, str_eq};

verus! {

/// One entry of a list: task name, reward points, and when it was completed
/// (seconds since the Unix epoch), if it was.
pub type Record = (String, i64, Option<i64>);

/// An ordered list of records. A record's position is its only identity.
pub struct Records(pub Vec<Record>);

/// A record as one row of a table of tasks.
pub struct RecordRow<'a> {
    pub task: &'a str,
    pub points: i64,
    pub completed: Option<i64>,
}

impl Records {
    /// An empty list.
    pub fn new() -> (r: Records)
        ensures
            r.0@ == Seq::<Record>::empty(),
    {
        Records(Vec::new())
    }

    /// Appends a record at the end.
    pub fn push(&mut self, task: String, points: i64, timestamp: Option<i64>)
        ensures
            final(self).0@ == old(self).0@.push((task, points, timestamp)),
    {
        self.0.push((task, points, timestamp))
    }

    /// Number of records.
    pub fn len(&self) -> (r: usize)
        ensures
            r == self.0@.len(),
    {
        self.0.len()
    }

    /// The records in order.
    pub fn iter(&self) -> (r: std::slice::Iter<'_, Record>)
        ensures
            vstd::std_specs::slice::into_iter_elts(r) == self.0@,
    {
        self.0.iter()
    }

    /// The record at `index`.
    pub fn get(&self, index: usize) -> (r: &Record)
        requires
            index < self.0@.len(),
        ensures
            *r == self.0@[index as int],
    {
        &self.0[index]
    }
}

/// Why a row of a task table could not be read.
#[derive(Clone, Copy, Debug, PartialEq, Eq, Structural)]
pub enum RecordError {
    /// The points are not an integer.
    BadPoints,
    /// The completion time is neither an integer nor `None`.
    BadTimestamp,
}

/// What a completion cell holds: `None` for a pending task, else a timestamp.
pub open spec fn completion_of(s: Seq<char>) -> Option<Option<i64>> {
    if s == "None"@ {
        Some(None)
    } else {
        match i64_of(s) {
            Some(t) => Some(Some(t)),
            None => None,
        }
    }
}

/// Reads one row of a task table: its name, its points and its completion
/// time, written as an integer or as `None`.
pub fn parse_record(task: &str, points: &str, completed: &str) -> (r: Result<Record, RecordError>)
    ensures
        i64_of(points@) is None ==> r == Err::<Record, RecordError>(RecordError::BadPoints),
        i64_of(points@) is Some && completion_of(completed@) is None ==> r == Err::<
            Record,
            RecordError,
        >(RecordError::BadTimestamp),
        i64_of(points@) is Some && completion_of(completed@) is Some ==> (r matches Ok(rec)
            && rec.0@ == task@ && rec.1 == i64_of(points@)->0 && rec.2 == completion_of(
            completed@,
        )->0),
{
    proof {
        reveal_strlit("None");
    }
    let p = match parse_i64(points) {
        Some(p) => p,
        None => return Err(RecordError::BadPoints),
    };
    let c = if str_eq(completed, "None") {
        None
    } else {
        match parse_i64(completed) {
            Some(t) => Some(t),
            None => return Err(RecordError::BadTimestamp),
        }
    };
    Ok((task.to_owned(), p, c))
}

} // verus!
