//! The account-to-balance mapping: an association table with at most one
//! entry per account. An absent account holds balance zero.

use vstd::prelude::*;

verus! {

/// An account identifier: an opaque, comparable token. The host execution
/// environment supplies real identities; the ledger only compares them.
pub type AccountId = u64;

/// A non-negative quantity of the fungible unit.
pub type Balance = u128;

/// One account's recorded holding.
pub struct AccountEntry {
    pub account: AccountId,
    pub amount: Balance,
}

/// The amount recorded for `account` in the first entry that carries it,
/// or zero when no entry does.
pub open spec fn lookup(s: Seq<AccountEntry>, account: AccountId) -> Balance
    decreases s.len(),
{
    if s.len() == 0 {
        0
    } else if s[0].account == account {
        s[0].amount
    } else {
        lookup(s.drop_first(), account)
    }
}

/// The sum of all recorded amounts.
pub open spec fn amount_sum(s: Seq<AccountEntry>) -> int
    decreases s.len(),
{
    if s.len() == 0 {
        0
    } else {
        s[0].amount + amount_sum(s.drop_first())
    }
}

/// No account appears in two entries.
pub open spec fn distinct_accounts(s: Seq<AccountEntry>) -> bool {
    forall|i: int, j: int| 0 <= i < j < s.len() ==> s[i].account != s[j].account
}

pub proof fn lemma_amount_sum_nonneg(s: Seq<AccountEntry>)
    ensures
        amount_sum(s) >= 0,
    decreases s.len(),
{
    if s.len() > 0 {
        lemma_amount_sum_nonneg(s.drop_first());
    }
}

/// A single account's balance never exceeds the sum of all balances.
pub proof fn lemma_lookup_le_sum(s: Seq<AccountEntry>, account: AccountId)
    ensures
        lookup(s, account) <= amount_sum(s),
    decreases s.len(),
{
    if s.len() > 0 {
        lemma_amount_sum_nonneg(s.drop_first());
        lemma_lookup_le_sum(s.drop_first(), account);
    }
}

/// When `i` is the first entry that carries `account`, the lookup returns
/// that entry's amount.
proof fn lemma_lookup_at(s: Seq<AccountEntry>, i: int, account: AccountId)
    requires
        0 <= i < s.len(),
        s[i].account == account,
        forall|j: int| 0 <= j < i ==> s[j].account != account,
    ensures
        lookup(s, account) == s[i].amount,
    decreases s.len(),
{
    if i > 0 {
        lemma_lookup_at(s.drop_first(), i - 1, account);
    }
}

/// An account with no entry has balance zero.
proof fn lemma_lookup_absent(s: Seq<AccountEntry>, account: AccountId)
    requires
        forall|j: int| 0 <= j < s.len() ==> s[j].account != account,
    ensures
        lookup(s, account) == 0,
    decreases s.len(),
{
    if s.len() > 0 {
        lemma_lookup_absent(s.drop_first(), account);
    }
}

/// Overwriting the first entry of an account changes exactly that
/// account's balance, and moves the sum by the difference.
proof fn lemma_update_entry(s: Seq<AccountEntry>, i: int, e: AccountEntry, b: AccountId)
    requires
        0 <= i < s.len(),
        s[i].account == e.account,
        forall|j: int| 0 <= j < i ==> s[j].account != e.account,
    ensures
        lookup(s.update(i, e), b) == if b == e.account { e.amount } else { lookup(s, b) },
        amount_sum(s.update(i, e)) == amount_sum(s) - s[i].amount + e.amount,
    decreases s.len(),
{
    let t = s.update(i, e);
    if i == 0 {
        assert(t.drop_first() =~= s.drop_first());
    } else {
        assert(t[0] == s[0]);
        assert(t.drop_first() =~= s.drop_first().update(i - 1, e));
        lemma_update_entry(s.drop_first(), i - 1, e, b);
    }
}

/// Appending an entry for a fresh account gives that account its amount,
/// leaves every other balance as it was, and adds the amount to the sum.
proof fn lemma_push_entry(s: Seq<AccountEntry>, e: AccountEntry, b: AccountId)
    requires
        forall|j: int| 0 <= j < s.len() ==> s[j].account != e.account,
    ensures
        lookup(s.push(e), b) == if b == e.account { e.amount } else { lookup(s, b) },
        amount_sum(s.push(e)) == amount_sum(s) + e.amount,
    decreases s.len(),
{
    if s.len() == 0 {
        assert(s.push(e)[0] == e);
        assert(s.push(e).drop_first() =~= Seq::<AccountEntry>::empty());
        assert(lookup(Seq::<AccountEntry>::empty(), b) == 0);
        assert(amount_sum(Seq::<AccountEntry>::empty()) == 0);
    } else {
        assert(s.push(e)[0] == s[0]);
        assert(s.push(e).drop_first() =~= s.drop_first().push(e));
        assert(forall|j: int| 0 <= j < s.drop_first().len() ==> s.drop_first()[j] == s[j + 1]);
        lemma_push_entry(s.drop_first(), e, b);
    }
}

/// The account-to-balance mapping.
pub struct BalanceTable {
    pub entries: Vec<AccountEntry>,
}

impl BalanceTable {
    /// Each account has at most one entry.
    pub open spec fn wf(self) -> bool {
        distinct_accounts(self.entries@)
    }

    /// The balance held by `account`; zero when it has no entry.
    pub open spec fn spec_get(self, account: AccountId) -> Balance {
        lookup(self.entries@, account)
    }

    /// The sum of all balances held in the table.
    pub open spec fn sum(self) -> int {
        amount_sum(self.entries@)
    }

    /// An empty table: every account holds zero.
    pub fn new() -> (t: BalanceTable)
        ensures
            t.wf(),
            t.sum() == 0,
            forall|a: AccountId| t.spec_get(a) == 0,
    {
        BalanceTable { entries: Vec::new() }
    }

    /// The index of the entry carrying `account`, if one exists.
    fn find(&self, account: AccountId) -> (r: Option<usize>)
        ensures
            match r {
                Some(i) => 0 <= i < self.entries@.len()
                    && self.entries@[i as int].account == account
                    && forall|j: int| 0 <= j < i ==> self.entries@[j].account != account,
                None => forall|j: int|
                    0 <= j < self.entries@.len() ==> self.entries@[j].account != account,
            },
    {
        let n = self.entries.len();
        let mut i: usize = 0;
        while i < n
            invariant
                n == self.entries@.len(),
                i <= n,
                forall|j: int| 0 <= j < i ==> self.entries@[j].account != account,
            decreases n - i,
        {
            if self.entries[i].account == account {
                return Some(i);
            }
            i = i + 1;
        }
        None
    }

    /// The balance held by `account`, or zero when it has none.
    pub fn get(&self, account: AccountId) -> (amount: Balance)
        ensures
            amount == self.spec_get(account),
    {
        match self.find(account) {
            Some(i) => {
                proof {
                    lemma_lookup_at(self.entries@, i as int, account);
                }
                self.entries[i].amount
            }
            None => {
                proof {
                    lemma_lookup_absent(self.entries@, account);
                }
                0
            }
        }
    }

    /// Sets the balance of `account` to `amount`, leaving every other
    /// balance untouched; the sum moves by the difference.
    pub fn put(&mut self, account: AccountId, amount: Balance)
        requires
            old(self).wf(),
        ensures
            final(self).wf(),
            final(self).spec_get(account) == amount,
            forall|b: AccountId| b != account ==> final(self).spec_get(b) == old(self).spec_get(b),
            final(self).sum() == old(self).sum() - old(self).spec_get(account) + amount,
    {
        let ghost s0 = self.entries@;
        let e = AccountEntry { account, amount };
        match self.find(account) {
            Some(i) => {
                proof {
                    lemma_lookup_at(s0, i as int, account);
                    assert forall|b: AccountId| true implies (lookup(s0.update(i as int, e), b)
                        == if b == account { amount } else { lookup(s0, b) }) by {
                        lemma_update_entry(s0, i as int, e, b);
                    }
                    assert(distinct_accounts(s0.update(i as int, e))) by {
                        assert(forall|k: int|
                            0 <= k < s0.len() ==> s0.update(i as int, e)[k].account
                                == s0[k].account);
                    }
                    lemma_update_entry(s0, i as int, e, account);
                }
                self.entries[i] = e;
            }
            None => {
                proof {
                    lemma_lookup_absent(s0, account);
                    assert forall|b: AccountId| true implies (lookup(s0.push(e), b)
                        == if b == account { amount } else { lookup(s0, b) }) by {
                        lemma_push_entry(s0, e, b);
                    }
                    assert(distinct_accounts(s0.push(e))) by {
                        assert(forall|k: int| 0 <= k < s0.len() ==> s0.push(e)[k] == s0[k]);
                        assert(s0.push(e)[s0.len() as int] == e);
                    }
                    lemma_push_entry(s0, e, account);
                }
                self.entries.push(e);
            }
        }
    }
}

} // verus!
