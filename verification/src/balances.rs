//! The account ledger: balances keyed by account, with a checked transfer.
use vstd::prelude::*;

use crate::support::{DispatchError, DispatchResult};
use vstd::hash_map::StringHashMap;

verus! {

/// The balance an account reads as: the stored amount, or zero for an
/// account never recorded.
pub open spec fn balance_of(bals: Map<Seq<char>, u128>, who: Seq<char>) -> u128 {
    if bals.contains_key(who) {
        bals[who]
    } else {
        0
    }
}

/// The ledger a successful transfer leaves behind, or the reason it fails.
/// A transfer to oneself is a guaranteed no-op success: the ledger is
/// returned unchanged, whatever the amount.
pub open spec fn transfer_outcome(
    bals: Map<Seq<char>, u128>,
    caller: Seq<char>,
    to: Seq<char>,
    amount: u128,
) -> Result<Map<Seq<char>, u128>, DispatchError> {
    if caller == to {
        Ok(bals)
    } else if amount > balance_of(bals, caller) {
        Err(DispatchError::InsufficientFunds)
    } else if balance_of(bals, to) + amount > u128::MAX {
        Err(DispatchError::Overflow)
    } else {
        Ok(
            bals.insert(caller, (balance_of(bals, caller) - amount) as u128).insert(
                to,
                (balance_of(bals, to) + amount) as u128,
            ),
        )
    }
}

/// The ledger module. It alone may read or write balances.
pub struct Pallet {
    balances: StringHashMap<u128>,
}

impl View for Pallet {
    type V = Map<Seq<char>, u128>;

    closed spec fn view(&self) -> Map<Seq<char>, u128> {
        self.balances@
    }
}

impl Pallet {
    /// The balance the ledger records for `who`, zero if absent.
    pub open spec fn spec_balance(&self, who: Seq<char>) -> u128 {
        balance_of(self@, who)
    }

    /// An empty ledger: no account has been recorded.
    pub fn new() -> (result: Self)
        ensures
            result@ == Map::<Seq<char>, u128>::empty(),
    {
        Self { balances: StringHashMap::new() }
    }

    /// Unconditionally overwrites the stored balance of `who`, creating the
    /// entry if absent. A setup-surface call, not part of operation routing.
    pub fn set_balance(&mut self, who: &String, amount: u128)
        ensures
            final(self)@ == old(self)@.insert(who@, amount),
    {
        self.balances.insert(who.clone(), amount);
    }

    /// The stored balance of `who`, or zero if the account has never been
    /// recorded. Pure read.
    pub fn balance(&self, who: &String) -> (result: u128)
        ensures
            result == self.spec_balance(who@),
    {
        match self.balances.get(who.as_str()) {
            Some(amount) => *amount,
            None => 0,
        }
    }

    /// Moves `amount` from `caller` to `to`, checking both sides: fails with
    /// `InsufficientFunds` if the caller holds less than `amount`, with
    /// `Overflow` if the recipient would pass the balance range. On failure
    /// the ledger is unchanged; a transfer to oneself is a no-op success.
    pub fn transfer(&mut self, caller: String, to: String, amount: u128) -> (result:
        DispatchResult)
        ensures
            (match transfer_outcome(old(self)@, caller@, to@, amount) {
                Ok(bals) => result == Ok::<(), DispatchError>(()) && final(self)@ == bals,
                Err(e) => result == Err::<(), DispatchError>(e) && final(self)@ == old(self)@,
            }),
    {
        if caller == to {
            return Ok(());
        }
        let caller_balance = self.balance(&caller);
        let receiver_balance = self.balance(&to);
        let new_caller_balance = match caller_balance.checked_sub(amount) {
            Some(b) => b,
            None => {
                return Err(DispatchError::InsufficientFunds);
            },
        };
        let new_receiver_balance = match receiver_balance.checked_add(amount) {
            Some(b) => b,
            None => {
                return Err(DispatchError::Overflow);
            },
        };
        self.balances.insert(caller, new_caller_balance);
        self.balances.insert(to, new_receiver_balance);
        Ok(())
    }
}

/// The operations the ledger module routes.
#[allow(non_camel_case_types)]
pub enum Call {
    transfer { to: String, amount: u128 },
}

impl crate::support::Dispatch for Pallet {
    type Caller = String;

    type Call = Call;

    fn dispatch(&mut self, caller: String, call: Call) -> (result: DispatchResult)
        ensures
            (match call {
                Call::transfer { to, amount } => match transfer_outcome(
                    old(self)@,
                    caller@,
                    to@,
                    amount,
                ) {
                    Ok(bals) => result == Ok::<(), DispatchError>(()) && final(self)@ == bals,
                    Err(e) => result == Err::<(), DispatchError>(e) && final(self)@ == old(self)@,
                },
            }),
    {
        match call {
            Call::transfer { to, amount } => self.transfer(caller, to, amount),
        }
    }
}

/// An account never assigned a balance reads as zero.
pub proof fn lemma_unassigned_balance_is_zero(bals: Map<Seq<char>, u128>, who: Seq<char>)
    requires
        !bals.contains_key(who),
    ensures
        balance_of(bals, who) == 0,
{
}

/// Setting a balance and reading it back round-trips exactly: after
/// `set_balance(who, amount)` the ledger reads `amount` for `who`.
pub proof fn lemma_set_balance_round_trip(
    bals: Map<Seq<char>, u128>,
    who: Seq<char>,
    amount: u128,
)
    ensures
        balance_of(bals.insert(who, amount), who) == amount,
{
}

/// A successful transfer between two distinct accounts moves exactly the
/// amount: the caller's balance falls by it, the recipient's rises by it,
/// and their total is conserved. No other account's balance changes.
pub proof fn lemma_transfer_conserves(
    bals: Map<Seq<char>, u128>,
    a: Seq<char>,
    b: Seq<char>,
    amount: u128,
)
    requires
        a != b,
        transfer_outcome(bals, a, b, amount) is Ok,
    ensures
        ({
            let moved = transfer_outcome(bals, a, b, amount)->Ok_0;
            &&& balance_of(moved, a) == balance_of(bals, a) - amount
            &&& balance_of(moved, b) == balance_of(bals, b) + amount
            &&& balance_of(moved, a) + balance_of(moved, b) == balance_of(bals, a) + balance_of(
                bals,
                b,
            )
            &&& forall|other: Seq<char>|
                other != a && other != b ==> balance_of(moved, other) == balance_of(bals, other)
        }),
{
}

/// A transfer between distinct accounts of more than the caller holds fails
/// with `InsufficientFunds`; by the transfer contract the ledger, and with
/// it both balances, is then unchanged.
pub proof fn lemma_transfer_insufficient_funds(
    bals: Map<Seq<char>, u128>,
    a: Seq<char>,
    b: Seq<char>,
    amount: u128,
)
    requires
        a != b,
        amount > balance_of(bals, a),
    ensures
        transfer_outcome(bals, a, b, amount) == Err::<Map<Seq<char>, u128>, DispatchError>(
            DispatchError::InsufficientFunds,
        ),
{
}

} // verus!
