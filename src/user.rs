use vstd::prelude::*;

use crate::records::Records;

verus! {

/// One user's three lists, keyed by the user's id.
pub struct User {
    pub id: u64,
    /// Tasks that reset every day.
    pub daily: Records,
    /// Tasks that stay until done.
    pub periodic: Records,
    /// Rewards earned and coins spent; each carries a time.
    pub transactions: Records,
}

/// Every transaction of `u` carries the time it happened.
pub open spec fn transactions_stamped(u: User) -> bool {
    forall|i: int| 0 <= i < u.transactions.0@.len() ==> (#[trigger] u.transactions.0@[i]).2 is Some
}

impl User {
    /// A user with empty lists, as created on first query.
    pub fn new(id: u64) -> (r: User)
        ensures
            r.id == id,
            r.daily.0@.len() == 0,
            r.periodic.0@.len() == 0,
            r.transactions.0@.len() == 0,
            transactions_stamped(r),
    {
        User { id, daily: Records::new(), periodic: Records::new(), transactions: Records::new() }
    }
}

} // verus!
