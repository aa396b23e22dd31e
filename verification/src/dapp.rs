//! The ledger component: account balances, a fixed total supply, the
//! distributor identity, the faucet amount, and the append-only transfer
//! log.
//!
//! The host execution environment supplies the caller identity for each
//! operation; here it is an explicit parameter. Decommissioning the ledger
//! and the timestamped diagnostics around logging are host primitives and
//! live with the host glue, not here.

use vstd::prelude::*;

use crate::balances::AccountId;
use crate::balances::Balance;
use crate::balances::BalanceTable;
use crate::balances::lemma_lookup_le_sum;

verus! {

/// A record of one value movement, immutable once appended to the log.
#[derive(Clone, Copy, Debug, PartialEq, Eq, Structural)]
pub struct Transfer {
    pub from: AccountId,
    pub to: AccountId,
    pub value: Balance,
}

/// The outcomes a ledger operation can fail with.
#[derive(Clone, Copy, Debug, PartialEq, Eq, Structural)]
pub enum Error {
    /// Returned when the moving account's balance cannot cover the request.
    InsufficientBalance,
    /// Reserved for an external eligibility check; no operation here
    /// produces it.
    UserNotHuman,
    /// Reserved; no operation here produces it.
    RecordTransferFailed,
}

/// The ledger.
pub struct Dapp {
    /// Total token supply, fixed at creation.
    pub total_supply: Balance,
    /// Mapping from owner to number of owned tokens.
    pub balances: BalanceTable,
    /// Amount of tokens dripped per faucet call, fixed at creation.
    pub faucet_amount: Balance,
    /// Token holder who initially receives all tokens.
    pub token_holder: AccountId,
    /// Record of transfers, append-only.
    pub transfers: Vec<Transfer>,
}

impl Dapp {
    /// The balance of `owner`; zero when the account was never credited.
    pub open spec fn spec_balance_of(self, owner: AccountId) -> Balance {
        self.balances.spec_get(owner)
    }

    /// Conservation: the balances sum to exactly the total supply. No
    /// operation mints or burns, so every operation preserves this.
    pub open spec fn supply_conserved(self) -> bool {
        self.balances.sum() == self.total_supply as int
    }

    pub open spec fn wf(self) -> bool {
        &&& self.balances.wf()
        &&& self.supply_conserved()
    }

    /// The configuration fixed at creation is unchanged.
    pub open spec fn same_config(pre: Dapp, post: Dapp) -> bool {
        &&& post.total_supply == pre.total_supply
        &&& post.faucet_amount == pre.faucet_amount
        &&& post.token_holder == pre.token_holder
    }

    /// Exactly `value` moved from `from` to `to`: `from` decreased and `to`
    /// increased by `value` (a self-transfer changes nothing), every other
    /// account kept its balance, and the configuration is unchanged.
    pub open spec fn moved(
        pre: Dapp,
        post: Dapp,
        from: AccountId,
        to: AccountId,
        value: Balance,
    ) -> bool {
        &&& Self::same_config(pre, post)
        &&& forall|a: AccountId|
            a != from && a != to ==> post.spec_balance_of(a) == pre.spec_balance_of(a)
        &&& from != to ==> post.spec_balance_of(from) == pre.spec_balance_of(from) - value
        &&& from != to ==> post.spec_balance_of(to) == pre.spec_balance_of(to) + value
        &&& from == to ==> post.spec_balance_of(from) == pre.spec_balance_of(from)
    }

    /// Creates the ledger: the whole supply is assigned to `caller`, which
    /// becomes the distributor; the transfer log starts empty.
    pub fn new(initial_supply: Balance, faucet_amount: Balance, caller: AccountId) -> (dapp: Dapp)
        ensures
            dapp.wf(),
            dapp.total_supply == initial_supply,
            dapp.faucet_amount == faucet_amount,
            dapp.token_holder == caller,
            dapp.spec_balance_of(caller) == initial_supply,
            forall|a: AccountId| a != caller ==> dapp.spec_balance_of(a) == 0,
            dapp.transfers@ =~= Seq::<Transfer>::empty(),
    {
        let mut balances = BalanceTable::new();
        balances.put(caller, initial_supply);
        let transfers: Vec<Transfer> = Vec::new();
        Dapp { total_supply: initial_supply, balances, faucet_amount, token_holder: caller, transfers }
    }

    /// Faucet: moves `faucet_amount` from the distributor to `accountid`,
    /// then appends the matching record to the transfer log. A failed move
    /// leaves no trace: the append happens only after the move succeeds.
    pub fn faucet(&mut self, accountid: AccountId) -> (r: Result<(), Error>)
        requires
            old(self).wf(),
        ensures
            final(self).wf(),
            r is Err <==> old(self).spec_balance_of(old(self).token_holder) < old(
                self,
            ).faucet_amount,
            r is Err ==> r == Err::<(), Error>(Error::InsufficientBalance) && *final(self) == *old(
                self,
            ),
            r is Ok ==> Dapp::moved(
                *old(self),
                *final(self),
                old(self).token_holder,
                accountid,
                old(self).faucet_amount,
            ),
            r is Ok ==> final(self).transfers@ == old(self).transfers@.push(
                Transfer {
                    from: old(self).token_holder,
                    to: accountid,
                    value: old(self).faucet_amount,
                },
            ),
    {
        let token_holder = self.token_holder;
        let amount = self.faucet_amount;
        match self.transfer_from_to(&token_holder, &accountid, amount) {
            Ok(()) => {},
            Err(e) => {
                return Err(e);
            },
        }
        let _ = self.record_transfer(token_holder, accountid, amount);
        Ok(())
    }

    /// Behaviorally identical to `faucet`: same precondition, same balance
    /// movement, same log entry; the log construction is inlined here
    /// rather than delegated to `record_transfer`.
    pub fn faucet_with_store(&mut self, accountid: AccountId) -> (r: Result<(), Error>)
        requires
            old(self).wf(),
        ensures
            final(self).wf(),
            r is Err <==> old(self).spec_balance_of(old(self).token_holder) < old(
                self,
            ).faucet_amount,
            r is Err ==> r == Err::<(), Error>(Error::InsufficientBalance) && *final(self) == *old(
                self,
            ),
            r is Ok ==> Dapp::moved(
                *old(self),
                *final(self),
                old(self).token_holder,
                accountid,
                old(self).faucet_amount,
            ),
            r is Ok ==> final(self).transfers@ == old(self).transfers@.push(
                Transfer {
                    from: old(self).token_holder,
                    to: accountid,
                    value: old(self).faucet_amount,
                },
            ),
    {
        let token_holder = self.token_holder;
        let amount = self.faucet_amount;
        match self.transfer_from_to(&token_holder, &accountid, amount) {
            Ok(()) => {},
            Err(e) => {
                return Err(e);
            },
        }
        self.transfers.push(Transfer { from: token_holder, to: accountid, value: amount });
        Ok(())
    }

    /// Appends `{from, to, value}` to the transfer log, touching no
    /// balance. This never fails, whatever the balances are: it is a pure
    /// logging primitive, and may record movements that never happened.
    pub fn record_transfer(&mut self, from: AccountId, to: AccountId, value: Balance) -> (r:
        Result<(), Error>)
        ensures
            r == Ok::<(), Error>(()),
            final(self).transfers@ == old(self).transfers@.push(Transfer { from, to, value }),
            final(self).balances == old(self).balances,
            Dapp::same_config(*old(self), *final(self)),
            old(self).wf() ==> final(self).wf(),
    {
        self.transfers.push(Transfer { from, to, value });
        Ok(())
    }

    /// Moves `value` from the calling account to `to`. The caller identity
    /// is an explicit parameter: the host passes the account that invoked
    /// the operation. This variant does not append to the transfer log.
    pub fn transfer(&mut self, caller: AccountId, to: AccountId, value: Balance) -> (r: Result<
        (),
        Error,
    >)
        requires
            old(self).wf(),
        ensures
            final(self).wf(),
            r is Err <==> old(self).spec_balance_of(caller) < value,
            r is Err ==> r == Err::<(), Error>(Error::InsufficientBalance) && *final(self) == *old(
                self,
            ),
            r is Ok ==> Dapp::moved(*old(self), *final(self), caller, to, value),
            final(self).transfers@ == old(self).transfers@,
    {
        self.transfer_from_to(&caller, &to, value)
    }

    /// Moves `value` from `from` to `to` when `from` can cover it;
    /// otherwise fails with `InsufficientBalance` and mutates nothing.
    /// Preconditions are checked in full before any write, so a failure
    /// leaves the ledger exactly as it was.
    fn transfer_from_to(&mut self, from: &AccountId, to: &AccountId, value: Balance) -> (r: Result<
        (),
        Error,
    >)
        requires
            old(self).wf(),
        ensures
            final(self).wf(),
            r is Err <==> old(self).spec_balance_of(*from) < value,
            r is Err ==> r == Err::<(), Error>(Error::InsufficientBalance) && *final(self) == *old(
                self,
            ),
            r is Ok ==> Dapp::moved(*old(self), *final(self), *from, *to, value),
            final(self).transfers@ == old(self).transfers@,
    {
        let from_balance = self.balance_of_impl(from);
        if from_balance < value {
            return Err(Error::InsufficientBalance);
        }
        proof {
            lemma_lookup_le_sum(self.balances.entries@, *from);
        }
        self.balances.put(*from, from_balance - value);
        let to_balance = self.balance_of_impl(to);
        proof {
            lemma_lookup_le_sum(self.balances.entries@, *to);
        }
        self.balances.put(*to, to_balance + value);
        Ok(())
    }

    /// The balance of `owner`, or zero if the account is non-existent.
    pub fn balance_of(&self, owner: AccountId) -> (balance: Balance)
        ensures
            balance == self.spec_balance_of(owner),
    {
        self.balance_of_impl(&owner)
    }

    /// The balance of `owner`, or zero if the account is non-existent.
    fn balance_of_impl(&self, owner: &AccountId) -> (balance: Balance)
        ensures
            balance == self.spec_balance_of(*owner),
    {
        self.balances.get(*owner)
    }
}

/// Law: an account never involved in any operation holds balance zero.
/// Creation gives every account other than the creator balance zero
/// (ensured by `Dapp::new`); a value movement leaves every uninvolved
/// account unchanged (this step); and recording a transfer leaves the
/// balances untouched altogether (ensured by `Dapp::record_transfer`).
pub proof fn lemma_untouched_account_stays_zero(
    pre: Dapp,
    post: Dapp,
    from: AccountId,
    to: AccountId,
    value: Balance,
    a: AccountId,
)
    requires
        Dapp::moved(pre, post, from, to, value),
        a != from,
        a != to,
        pre.spec_balance_of(a) == 0,
    ensures
        post.spec_balance_of(a) == 0,
{
}

} // verus!
