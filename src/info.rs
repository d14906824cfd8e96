use vstd::prelude::*;

use crate::records::Record;
use crate::user::User;

verus! {

/// Coins earned: the sum of the positive amounts.
pub open spec fn gathered(s: Seq<Record>) -> int
    decreases s.len(),
{
    if s.len() == 0 {
        0
    } else {
        gathered(s.drop_last()) + if s.last().1 > 0 {
            s.last().1 as int
        } else {
            0
        }
    }
}

/// Coins spent: the sum of the negative amounts, as a positive number.
pub open spec fn spent(s: Seq<Record>) -> int
    decreases s.len(),
{
    if s.len() == 0 {
        0
    } else {
        spent(s.drop_last()) + if s.last().1 < 0 {
            -(s.last().1 as int)
        } else {
            0
        }
    }
}

/// Coins held: the sum of all amounts.
pub open spec fn balance(s: Seq<Record>) -> int
    decreases s.len(),
{
    if s.len() == 0 {
        0
    } else {
        balance(s.drop_last()) + s.last().1 as int
    }
}

/// The bound on a sum of `n` amounts.
spec fn sum_bound(n: int) -> int {
    n * 0x8000_0000_0000_0000
}

proof fn lemma_sums(s: Seq<Record>)
    ensures
        0 <= gathered(s) <= sum_bound(s.len() as int),
        0 <= spent(s) <= sum_bound(s.len() as int),
        balance(s) == gathered(s) - spent(s),
    decreases s.len(),
{
    if s.len() > 0 {
        lemma_sums(s.drop_last());
        assert(sum_bound(s.len() as int) == sum_bound(s.len() - 1) + 0x8000_0000_0000_0000) by (nonlinear_arith);
    }
}

/// A user's ledger: what was earned, spent and is left, from the transactions.
pub struct Info(pub User);

impl Info {
    /// The ledger of `user`.
    pub fn new(user: User) -> (r: Info)
        ensures
            r.0 == user,
    {
        Info(user)
    }

    /// Sums the transactions' amounts three ways: (earned, spent, balance).
    fn totals(&self) -> (r: (i128, i128, i128))
        ensures
            r.0 == gathered(self.0.transactions.0@),
            r.1 == spent(self.0.transactions.0@),
            r.2 == balance(self.0.transactions.0@),
    {
        let s = &self.0.transactions.0;
        let n = s.len();
        let mut g: i128 = 0;
        let mut p: i128 = 0;
        let mut b: i128 = 0;
        let mut i: usize = 0;
        while i < n
            invariant
                n == s@.len(),
                i <= n,
                g == gathered(s@.subrange(0, i as int)),
                p == spent(s@.subrange(0, i as int)),
                b == balance(s@.subrange(0, i as int)),
            decreases n - i,
        {
            let ghost next = s@.subrange(0, i as int + 1);
            proof {
                assert(next.drop_last() =~= s@.subrange(0, i as int));
                lemma_sums(s@.subrange(0, i as int));
                lemma_sums(next);
                assert(sum_bound(i as int + 1) <= sum_bound(0x1_0000_0000_0000_0000)) by (nonlinear_arith)
                    requires
                        i < n,
                        n <= usize::MAX,
                ;
            }
            let amount = s[i].1;
            if amount > 0 {
                g = g + amount as i128;
            } else {
                p = p - amount as i128;
            }
            b = b + amount as i128;
            i = i + 1;
        }
        proof {
            assert(s@.subrange(0, n as int) =~= s@);
        }
        (g, p, b)
    }

    /// Coins earned over all transactions.
    pub fn points_gathered(&self) -> (r: i128)
        ensures
            r == gathered(self.0.transactions.0@),
    {
        self.totals().0
    }

    /// Coins spent over all transactions.
    pub fn points_spent(&self) -> (r: i128)
        ensures
            r == spent(self.0.transactions.0@),
    {
        self.totals().1
    }

    /// Coins left: earned less spent.
    pub fn points_balance(&self) -> (r: i128)
        ensures
            r == balance(self.0.transactions.0@),
            r == gathered(self.0.transactions.0@) - spent(self.0.transactions.0@),
    {
        proof {
            lemma_sums(self.0.transactions.0@);
        }
        self.totals().2
    }
}

} // verus!
