//! A minimal blockchain runtime: a balances ledger and a system module
//! (block height, per-account nonces), a dispatcher that routes tagged
//! calls to the module owning them, and a block executor that applies an
//! ordered batch of extrinsics, isolating per-extrinsic failures.

use vstd::prelude::*;

pub mod balances;
pub mod storage;
pub mod support;
pub mod system;
pub mod types;

use crate::support::Dispatch;
use crate::support::DispatchResult;
use crate::system::nonce_of;

verus! {

/// All the calls which are exposed to the world: an accumulation of the
/// calls exposed by each module. The caller is supplied by the execution
/// context, never by the payload itself.
pub enum RuntimeCall {
    BalancesTransfer { to: types::AccountID, amount: types::Balance },
}

/// The main runtime. It accumulates all of the pallets and owns the
/// canonical chain state for the lifetime of the process.
#[derive(Debug)]
pub struct Runtime {
    pub system: system::Pallet,
    pub balances: balances::Pallet,
}

/// The ledger after the call of one extrinsic is dispatched on it, on
/// behalf of `caller`. A refused call leaves the ledger unchanged.
pub open spec fn apply_call(
    bals: Map<Seq<char>, u128>,
    caller: Seq<char>,
    call: RuntimeCall,
) -> Map<Seq<char>, u128> {
    match call {
        RuntimeCall::BalancesTransfer { to, amount } => balances::transfer_effect(
            bals,
            caller,
            to@,
            amount,
        ),
    }
}

/// How many extrinsics of `exts` are signed by `who`.
pub open spec fn calls_by(exts: Seq<types::Extrinsic>, who: Seq<char>) -> nat
    decreases exts.len(),
{
    if exts.len() == 0 {
        0
    } else {
        (if exts[0].caller@ == who {
            1nat
        } else {
            0nat
        }) + calls_by(exts.drop_first(), who)
    }
}

/// The chain state (ledger, nonces) after executing `exts` in order: for
/// each extrinsic the caller's nonce is incremented unconditionally, then
/// its call is applied. A refused call never rolls back earlier
/// extrinsics and never skips later ones.
pub open spec fn apply_extrinsics(
    bals: Map<Seq<char>, u128>,
    nonces: Map<Seq<char>, u32>,
    exts: Seq<types::Extrinsic>,
) -> (Map<Seq<char>, u128>, Map<Seq<char>, u32>)
    decreases exts.len(),
{
    if exts.len() == 0 {
        (bals, nonces)
    } else {
        let e = exts[0];
        apply_extrinsics(
            apply_call(bals, e.caller@, e.call),
            nonces.insert(e.caller@, (nonce_of(nonces, e.caller@) + 1) as u32),
            exts.drop_first(),
        )
    }
}

/// Law: executing a batch of extrinsics increments each account's nonce by
/// exactly the number of extrinsics it signed; in particular an account
/// that signed none keeps its nonce.
pub proof fn lemma_nonce_counts_calls(
    bals: Map<Seq<char>, u128>,
    nonces: Map<Seq<char>, u32>,
    exts: Seq<types::Extrinsic>,
    who: Seq<char>,
)
    requires
        nonce_of(nonces, who) + calls_by(exts, who) <= u32::MAX,
    ensures
        nonce_of(apply_extrinsics(bals, nonces, exts).1, who) == nonce_of(nonces, who)
            + calls_by(exts, who),
    decreases exts.len(),
{
    if exts.len() > 0 {
        let e = exts[0];
        lemma_nonce_counts_calls(
            apply_call(bals, e.caller@, e.call),
            nonces.insert(e.caller@, (nonce_of(nonces, e.caller@) + 1) as u32),
            exts.drop_first(),
            who,
        );
    }
}

impl Runtime {
    /// A new instance of the main runtime, with every pallet in its
    /// initial state: height zero, no balances, no nonces.
    pub fn new() -> (r: Self)
        ensures
            r.system.spec_block_number() == 0,
            r.system.spec_nonces() == Map::<Seq<char>, u32>::empty(),
            r.balances@ == Map::<Seq<char>, u128>::empty(),
    {
        Runtime { system: system::Pallet::new(), balances: balances::Pallet::new() }
    }

    /// Execute a block of extrinsics.
    ///
    /// The block number is incremented first, unconditionally — a block
    /// rejected for a mismatched height still advances the counter. On a
    /// height mismatch nothing else changes and the mismatch error is
    /// returned. Otherwise every extrinsic is attempted in order (nonce
    /// bumped, call dispatched), a refused call is isolated to its own
    /// extrinsic, and the block as a whole reports success.
    pub fn execute_block(&mut self, block: types::Block) -> (r: DispatchResult)
        requires
            old(self).system.spec_block_number() < u32::MAX,
            block.header.block_number == old(self).system.spec_block_number() + 1
                ==> forall|who: Seq<char>|
                nonce_of(old(self).system.spec_nonces(), who) + calls_by(block.extrinsics@, who)
                    <= u32::MAX,
        ensures
            final(self).system.spec_block_number() == old(self).system.spec_block_number() + 1,
            r is Ok <==> block.header.block_number == old(self).system.spec_block_number() + 1,
            r is Err ==> {
                &&& r->Err_0@ == "block number does not match what is expected"@
                &&& final(self).balances@ == old(self).balances@
                &&& final(self).system.spec_nonces() == old(self).system.spec_nonces()
            },
            r is Ok ==> (final(self).balances@, final(self).system.spec_nonces())
                == apply_extrinsics(
                old(self).balances@,
                old(self).system.spec_nonces(),
                block.extrinsics@,
            ),
    {
        self.system.inc_block_number();
        if block.header.block_number != self.system.block_number() {
            return Err("block number does not match what is expected");
        }
        let mut extrinsics = block.extrinsics;
        let ghost all = extrinsics@;
        let ghost target = apply_extrinsics(self.balances@, self.system.spec_nonces(), all);
        while extrinsics.len() > 0
            invariant
                apply_extrinsics(self.balances@, self.system.spec_nonces(), extrinsics@)
                    == target,
                forall|who: Seq<char>|
                    nonce_of(self.system.spec_nonces(), who) + calls_by(extrinsics@, who)
                        <= u32::MAX,
                self.system.spec_block_number() == old(self).system.spec_block_number() + 1,
            decreases extrinsics.len(),
        {
            let ghost pre = extrinsics@;
            let ghost pre_bals = self.balances@;
            let ghost pre_nonces = self.system.spec_nonces();
            let e = extrinsics.remove(0);
            proof {
                assert(extrinsics@ =~= pre.drop_first());
                assert(calls_by(pre, e.caller@) >= 1);
            }
            let support::Extrinsic { caller, call } = e;
            self.system.inc_nonce(&caller);
            let _res = self.dispatch(caller, call);
            proof {
                assert(apply_extrinsics(pre_bals, pre_nonces, pre) == apply_extrinsics(
                    self.balances@,
                    self.system.spec_nonces(),
                    extrinsics@,
                ));
                assert forall|who: Seq<char>|
                    nonce_of(self.system.spec_nonces(), who) + calls_by(extrinsics@, who)
                        <= u32::MAX by {
                    assert(nonce_of(pre_nonces, who) + calls_by(pre, who) <= u32::MAX);
                }
            }
        }
        Ok(())
    }
}

/// Dispatch a call on behalf of a caller: identify which underlying
/// module call is wanted and route it there, forwarding the handler's
/// result unmodified. The system pallet is never touched by routing.
impl Dispatch for Runtime {
    type Caller = types::AccountID;

    type Call = RuntimeCall;

    open spec fn dispatch_ens(
        self,
        post: Runtime,
        caller: types::AccountID,
        call: RuntimeCall,
        r: DispatchResult,
    ) -> bool {
        &&& post.system == self.system
        &&& post.balances@ == apply_call(self.balances@, caller@, call)
        &&& match call {
            RuntimeCall::BalancesTransfer { to, amount } => {
                &&& (r is Ok <==> balances::transfer_allowed(self.balances@, caller@, to@, amount))
                &&& (balances::balance_of(self.balances@, caller@) < amount <==> r is Err
                    && r->Err_0@ == "Not enough funds"@)
                &&& ((amount <= balances::balance_of(self.balances@, caller@)
                    && balances::balance_of(self.balances@, to@) + amount > u128::MAX) <==> r is Err
                    && r->Err_0@ == "Integer Overflow"@)
            },
        }
    }

    fn dispatch(&mut self, caller: types::AccountID, runtime_call: RuntimeCall) -> (r:
        DispatchResult) {
        match runtime_call {
            RuntimeCall::BalancesTransfer { to, amount } => self.balances.transfer(
                caller,
                to,
                amount,
            ),
        }
    }
}

} // verus!
