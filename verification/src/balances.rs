//! The balances module: the exclusive owner of the mapping from account
//! identifier to balance, with checked transfers.

use crate::storage::StorageMap;
use crate::support::Dispatch;
use crate::support::DispatchResult;
use vstd::prelude::*;

verus! {

/// The balance an account holds in the ledger `m`: zero until it is
/// written (absence is zero, never materialized until written).
pub open spec fn balance_of(m: Map<Seq<char>, u128>, who: Seq<char>) -> u128 {
    if m.dom().contains(who) {
        m[who]
    } else {
        0
    }
}

/// Whether a transfer succeeds on the ledger `m`: the caller can cover the
/// amount, and the recipient's balance stays representable.
pub open spec fn transfer_allowed(
    m: Map<Seq<char>, u128>,
    caller: Seq<char>,
    to: Seq<char>,
    amount: u128,
) -> bool {
    &&& amount <= balance_of(m, caller)
    &&& balance_of(m, to) + amount <= u128::MAX
}

/// The ledger after a transfer: unchanged when the transfer is refused,
/// unchanged for a self-transfer (the debit and the credit of the same
/// account cancel out), and otherwise both accounts rewritten, the debit
/// first.
pub open spec fn transfer_effect(
    m: Map<Seq<char>, u128>,
    caller: Seq<char>,
    to: Seq<char>,
    amount: u128,
) -> Map<Seq<char>, u128> {
    if !transfer_allowed(m, caller, to, amount) {
        m
    } else if caller == to {
        m
    } else {
        m.insert(caller, (balance_of(m, caller) - amount) as u128).insert(
            to,
            (balance_of(m, to) + amount) as u128,
        )
    }
}

/// Law: an account that has never been written holds balance zero.
pub proof fn lemma_initial_balance_zero(who: Seq<char>)
    ensures
        balance_of(Map::<Seq<char>, u128>::empty(), who) == 0,
{
}

/// Law: a self-transfer never changes the ledger, whether it succeeds or
/// is refused; in particular the account's balance is left unchanged.
pub proof fn lemma_self_transfer_unchanged(m: Map<Seq<char>, u128>, who: Seq<char>, amount: u128)
    ensures
        transfer_effect(m, who, who, amount) == m,
{
}

/// Law: a successful transfer between two distinct accounts conserves the
/// sum of their balances, and touches nobody else's balance.
pub proof fn lemma_transfer_conserves_sum(
    m: Map<Seq<char>, u128>,
    caller: Seq<char>,
    to: Seq<char>,
    amount: u128,
)
    requires
        caller != to,
        transfer_allowed(m, caller, to, amount),
    ensures
        balance_of(transfer_effect(m, caller, to, amount), caller) + balance_of(
            transfer_effect(m, caller, to, amount),
            to,
        ) == balance_of(m, caller) + balance_of(m, to),
        forall|other: Seq<char>|
            other != caller && other != to ==> balance_of(
                transfer_effect(m, caller, to, amount),
                other,
            ) == balance_of(m, other),
{
}

/// The balances pallet. Its abstract state is the map from account
/// identifier to stored balance; an account outside the map's domain
/// holds zero.
#[derive(Debug)]
pub struct Pallet {
    balances: StorageMap<u128>,
}

impl View for Pallet {
    type V = Map<Seq<char>, u128>;

    closed spec fn view(&self) -> Map<Seq<char>, u128> {
        self.balances@
    }
}

impl Pallet {
    /// A fresh ledger: nobody holds anything yet.
    pub fn new() -> (r: Self)
        ensures
            r@ == Map::<Seq<char>, u128>::empty(),
    {
        Pallet { balances: StorageMap::new() }
    }

    /// Set the balance of an account `who` to `amount`, unconditionally.
    pub fn set_balance(&mut self, who: &String, amount: u128)
        ensures
            final(self)@ == old(self)@.insert(who@, amount),
    {
        self.balances.set(who, amount);
    }

    /// Get the balance of an account `who`. If the account has no stored
    /// balance, we return zero.
    pub fn balance(&self, who: &String) -> (r: u128)
        ensures
            r == balance_of(self@, who@),
    {
        match self.balances.get(who) {
            Some(b) => *b,
            None => 0,
        }
    }

    /// Transfer `amount` from one account to another. This function
    /// verifies that `from` has at least `amount` balance to transfer and
    /// that no mathematical overflows occur, before any write is
    /// committed; on either failure the ledger is left untouched.
    pub fn transfer(&mut self, caller: String, to: String, amount: u128) -> (r: DispatchResult)
        ensures
            final(self)@ == transfer_effect(old(self)@, caller@, to@, amount),
            r is Ok <==> transfer_allowed(old(self)@, caller@, to@, amount),
            amount > balance_of(old(self)@, caller@) <==> r is Err && r->Err_0@
                == "Not enough funds"@,
            (amount <= balance_of(old(self)@, caller@) && balance_of(old(self)@, to@) + amount
                > u128::MAX) <==> r is Err && r->Err_0@ == "Integer Overflow"@,
    {
        proof {
            reveal_strlit("Not enough funds");
            reveal_strlit("Integer Overflow");
            assert("Not enough funds"@[0] == 'N' && "Integer Overflow"@[0] == 'I');
            assert("Not enough funds"@ != "Integer Overflow"@);
        }
        let caller_balance = self.balance(&caller);
        let to_balance = self.balance(&to);
        let new_caller_balance = match caller_balance.checked_sub(amount) {
            Some(b) => b,
            None => {
                return Err("Not enough funds");
            },
        };
        let new_to_balance = match to_balance.checked_add(amount) {
            Some(b) => b,
            None => {
                return Err("Integer Overflow");
            },
        };
        if caller != to {
            self.set_balance(&caller, new_caller_balance);
            self.set_balance(&to, new_to_balance);
        }
        Ok(())
    }
}

/// The calls the balances module exposes to the dispatcher. The caller of
/// each call is supplied by the dispatcher, never by the call payload.
pub enum Call {
    Transfer { to: String, amount: u128 },
}

/// The dispatch logic of the balances module, mapping each `Call` variant
/// to the function that executes it.
impl Dispatch for Pallet {
    type Caller = String;

    type Call = Call;

    open spec fn dispatch_ens(
        self,
        post: Pallet,
        caller: String,
        call: Call,
        r: DispatchResult,
    ) -> bool {
        match call {
            Call::Transfer { to, amount } => {
                &&& post@ == transfer_effect(self@, caller@, to@, amount)
                &&& (r is Ok <==> transfer_allowed(self@, caller@, to@, amount))
                &&& (amount > balance_of(self@, caller@) <==> r is Err && r->Err_0@
                    == "Not enough funds"@)
                &&& ((amount <= balance_of(self@, caller@) && balance_of(self@, to@) + amount
                    > u128::MAX) <==> r is Err && r->Err_0@ == "Integer Overflow"@)
            },
        }
    }

    fn dispatch(&mut self, caller: String, call: Call) -> (r: DispatchResult) {
        match call {
            Call::Transfer { to, amount } => self.transfer(caller, to, amount),
        }
    }
}

} // verus!
