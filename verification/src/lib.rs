//! A minimal deterministic state-transition runtime: a single world state,
//! advanced only by executing numbered blocks of signed operations
//! ("extrinsics"), each routed to the module ("pallet") that owns it.
//!
//! The runtime composes three modules — an account ledger, a content-claim
//! registry, and the sequencing counters — into one state value, and drives
//! them through block execution: validate the height, then apply every
//! extrinsic strictly in order, counting each against its caller's nonce and
//! reporting, not propagating, per-extrinsic failures.
use vstd::prelude::*;

pub mod balances;
pub mod proof_of_existence;
pub mod support;
pub mod system;
pub mod types;

verus! {

use crate::support::{BlockError, Dispatch, DispatchError, DispatchResult, ExtrinsicFailure};
use crate::system::nonce_of;

/// The closed set of operations routable across modules: one variant per
/// module, each wrapping that module's own closed set.
pub enum RuntimeCall {
    Balances(balances::Call),
    ProofOfExistence(proof_of_existence::Call),
}

/// The composed runtime state: one instance of each module's state,
/// mutated only through block execution and the setup accessors.
pub struct Runtime {
    pub system: system::Pallet,
    pub balances: balances::Pallet,
    pub proof_of_existence: proof_of_existence::Pallet,
}

/// The mathematical model of the full runtime state: the height, and the
/// three maps the modules own.
pub struct StateModel {
    pub block_number: u32,
    pub nonces: Map<Seq<char>, u32>,
    pub balances: Map<Seq<char>, u128>,
    pub claims: Map<Seq<char>, Seq<char>>,
}

impl View for Runtime {
    type V = StateModel;

    open spec fn view(&self) -> StateModel {
        StateModel {
            block_number: self.system@.block_number,
            nonces: self.system@.nonces,
            balances: self.balances@,
            claims: self.proof_of_existence@,
        }
    }
}

/// The state a dispatched operation leads to, with its outcome. Routing is a
/// pure structural match: each operation touches only the module that owns
/// it, and a failed operation changes nothing.
pub open spec fn spec_dispatch(s: StateModel, caller: Seq<char>, call: RuntimeCall) -> (
    StateModel,
    DispatchResult,
) {
    match call {
        RuntimeCall::Balances(balances::Call::transfer { to, amount }) => {
            match balances::transfer_outcome(s.balances, caller, to@, amount) {
                Ok(bals) => (StateModel { balances: bals, ..s }, Ok(())),
                Err(e) => (s, Err(e)),
            }
        },
        RuntimeCall::ProofOfExistence(proof_of_existence::Call::CreateClaim { claim }) => {
            match proof_of_existence::create_claim_outcome(s.claims, caller, claim@) {
                Ok(claims) => (StateModel { claims: claims, ..s }, Ok(())),
                Err(e) => (s, Err(e)),
            }
        },
        RuntimeCall::ProofOfExistence(proof_of_existence::Call::RevokeClaim { claim }) => {
            match proof_of_existence::revoke_claim_outcome(s.claims, caller, claim@) {
                Ok(claims) => (StateModel { claims: claims, ..s }, Ok(())),
                Err(e) => (s, Err(e)),
            }
        },
    }
}

/// One extrinsic, applied as block execution applies it: the caller's nonce
/// is counted up first, unconditionally, and the operation is then
/// dispatched to its owning module.
pub open spec fn spec_apply_extrinsic(s: StateModel, caller: Seq<char>, call: RuntimeCall) -> (
    StateModel,
    Option<DispatchError>,
) {
    let counted = StateModel {
        nonces: s.nonces.insert(caller, (nonce_of(s.nonces, caller) + 1) as u32),
        ..s
    };
    match spec_dispatch(counted, caller, call) {
        (next, Ok(())) => (next, None),
        (next, Err(e)) => (next, Some(e)),
    }
}

/// The extrinsics of `xts`, applied strictly in order starting from `s`,
/// with the failures among them reported against height `block_number` and
/// positions counted from `base`. A failing extrinsic never rolls back the
/// effects of those before it.
pub open spec fn spec_execute_from(
    s: StateModel,
    block_number: u32,
    xts: Seq<types::Extrinsic>,
    base: int,
) -> (StateModel, Seq<ExtrinsicFailure>)
    decreases xts.len(),
{
    if xts.len() == 0 {
        (s, Seq::<ExtrinsicFailure>::empty())
    } else {
        let x = xts.first();
        let (next, err) = spec_apply_extrinsic(s, x.caller@, x.call);
        let (end, rest) = spec_execute_from(next, block_number, xts.drop_first(), base + 1);
        let failures = match err {
            None => rest,
            Some(e) => seq![
                ExtrinsicFailure {
                    block_number: block_number,
                    extrinsic_index: base as usize,
                    error: e,
                },
            ] + rest,
        };
        (end, failures)
    }
}

/// The extrinsics of a whole block, applied in order from `s`, with
/// positions counted from zero.
pub open spec fn spec_execute_extrinsics(
    s: StateModel,
    block_number: u32,
    xts: Seq<types::Extrinsic>,
) -> (StateModel, Seq<ExtrinsicFailure>) {
    spec_execute_from(s, block_number, xts, 0)
}

/// No caller's nonce hits its integer ceiling while `xts` run from a state
/// with the nonces `nonces`. Dispatching never touches a nonce, so the
/// counters evolve by the increments alone.
pub open spec fn nonces_in_bounds(nonces: Map<Seq<char>, u32>, xts: Seq<types::Extrinsic>) -> bool
    decreases xts.len(),
{
    if xts.len() == 0 {
        true
    } else {
        let caller = xts.first().caller@;
        &&& nonce_of(nonces, caller) < u32::MAX
        &&& nonces_in_bounds(
            nonces.insert(caller, (nonce_of(nonces, caller) + 1) as u32),
            xts.drop_first(),
        )
    }
}

/// The state `s` with the height advanced by one.
pub open spec fn with_next_height(s: StateModel) -> StateModel {
    StateModel { block_number: (s.block_number + 1) as u32, ..s }
}

impl Runtime {
    /// The all-zero initial state: height zero, no balances, no nonces, no
    /// claims.
    pub fn new() -> (result: Self)
        ensures
            result@.block_number == 0,
            result@.nonces == Map::<Seq<char>, u32>::empty(),
            result@.balances == Map::<Seq<char>, u128>::empty(),
            result@.claims == Map::<Seq<char>, Seq<char>>::empty(),
    {
        Self {
            system: system::Pallet::new(),
            balances: balances::Pallet::new(),
            proof_of_existence: proof_of_existence::Pallet::new(),
        }
    }

    /// The sole entry point for advancing state. The height is incremented
    /// first; a block whose header names any other height than the one
    /// reached is refused whole with `BlockNumberMismatch`, and no extrinsic
    /// of it runs. Otherwise every extrinsic is attempted strictly in order —
    /// each counted against its caller's nonce whether or not it succeeds —
    /// and the failures among them are returned for reporting, tagged with
    /// the height and the extrinsic's position.
    ///
    /// Callers keep the height and every acting account's nonce within their
    /// integer ranges; policing those counters is an explicit non-goal.
    pub fn execute_block(&mut self, block: types::Block) -> (result: Result<
        Vec<ExtrinsicFailure>,
        BlockError,
    >)
        requires
            old(self)@.block_number < u32::MAX,
            block.header.block_number == old(self)@.block_number + 1 ==> nonces_in_bounds(
                old(self)@.nonces,
                block.extrinsics@,
            ),
        ensures
            final(self)@.block_number == old(self)@.block_number + 1,
            (match result {
                Err(e) => {
                    &&& e == BlockError::BlockNumberMismatch
                    &&& block.header.block_number != old(self)@.block_number + 1
                    &&& final(self)@.nonces == old(self)@.nonces
                    &&& final(self)@.balances == old(self)@.balances
                    &&& final(self)@.claims == old(self)@.claims
                },
                Ok(failures) => block.header.block_number == old(self)@.block_number + 1 && ({
                    let (end, spec_failures) = spec_execute_extrinsics(
                        with_next_height(old(self)@),
                        block.header.block_number,
                        block.extrinsics@,
                    );
                    final(self)@ == end && failures@ == spec_failures
                }),
            }),
    {
        let crate::support::Block { header, mut extrinsics } = block;
        let block_number = header.block_number;
        self.system.inc_block_number();
        if block_number != self.system.block_number() {
            return Err(BlockError::BlockNumberMismatch);
        }
        let ghost start = self@;
        let ghost all_xts = extrinsics@;
        let mut failures: Vec<ExtrinsicFailure> = Vec::new();
        let mut index: usize = 0;
        let total = extrinsics.len();
        proof {
            assert(all_xts.skip(0) =~= all_xts);
            assert(Seq::<ExtrinsicFailure>::empty() + spec_execute_from(
                start,
                block_number,
                all_xts,
                0,
            ).1 =~= spec_execute_from(start, block_number, all_xts, 0).1);
        }
        while extrinsics.len() > 0
            invariant
                index + extrinsics@.len() == all_xts.len(),
                all_xts.len() == total,
                extrinsics@ == all_xts.skip(index as int),
                self@.block_number == start.block_number,
                nonces_in_bounds(self@.nonces, extrinsics@),
                ({
                    let (total_end, total_failures) = spec_execute_extrinsics(
                        start,
                        block_number,
                        all_xts,
                    );
                    let (rest_end, rest_failures) = spec_execute_from(
                        self@,
                        block_number,
                        extrinsics@,
                        index as int,
                    );
                    total_end == rest_end && total_failures == failures@ + rest_failures
                }),
            decreases extrinsics@.len(),
        {
            let ghost rem = extrinsics@;
            let ghost before_step = self@;
            let ghost failures_before = failures@;
            let x = extrinsics.remove(0);
            let ghost caller_view = x.caller@;
            let ghost call_snapshot = x.call;
            self.system.inc_nonce(&x.caller);
            proof {
                assert(self@ == (StateModel {
                    nonces: before_step.nonces.insert(
                        caller_view,
                        (nonce_of(before_step.nonces, caller_view) + 1) as u32,
                    ),
                    ..before_step
                }));
            }
            let step = self.dispatch(x.caller, x.call);
            match step {
                Ok(()) => {},
                Err(e) => {
                    failures.push(
                        ExtrinsicFailure {
                            block_number: block_number,
                            extrinsic_index: index,
                            error: e,
                        },
                    );
                },
            }
            index = index + 1;
            proof {
                assert(extrinsics@ =~= rem.drop_first());
                assert(extrinsics@ =~= all_xts.skip(index as int));
                let (next, err) = spec_apply_extrinsic(before_step, caller_view, call_snapshot);
                assert(self@ == next);
                let (_rest_end, rest_failures) = spec_execute_from(
                    next,
                    block_number,
                    rem.drop_first(),
                    index as int,
                );
                if let Some(e) = err {
                    let reported = ExtrinsicFailure {
                        block_number: block_number,
                        extrinsic_index: (index - 1) as usize,
                        error: e,
                    };
                    assert(failures_before.push(reported) + rest_failures =~= failures_before + (
                    seq![reported] + rest_failures));
                }
            }
        }
        proof {
            let (total_end, total_failures) = spec_execute_extrinsics(start, block_number, all_xts);
            assert(failures@ + Seq::<ExtrinsicFailure>::empty() =~= failures@);
            assert(total_end == self@ && total_failures == failures@);
            assert(start == with_next_height(old(self)@));
        }
        Ok(failures)
    }
}

/// Applying an extrinsic counts it against its caller's nonce exactly once,
/// whether the dispatched operation succeeds or fails: the caller's counter
/// rises by one and no other account's counter moves.
pub proof fn lemma_extrinsic_counts_once(s: StateModel, caller: Seq<char>, call: RuntimeCall)
    ensures
        ({
            let (next, _err) = spec_apply_extrinsic(s, caller, call);
            &&& nonce_of(next.nonces, caller) == (nonce_of(s.nonces, caller) + 1) as u32
            &&& forall|other: Seq<char>|
                other != caller ==> nonce_of(next.nonces, other) == nonce_of(s.nonces, other)
        }),
{
}

/// How many of `xts` the account `who` originates.
pub open spec fn count_extrinsics_by(xts: Seq<types::Extrinsic>, who: Seq<char>) -> nat
    decreases xts.len(),
{
    if xts.len() == 0 {
        0
    } else {
        (if xts.first().caller@ == who {
            1nat
        } else {
            0nat
        }) + count_extrinsics_by(xts.drop_first(), who)
    }
}

/// A whole run of extrinsics counts each against its caller's nonce exactly
/// once, succeed or fail: every account leaves the run with its nonce raised
/// by exactly the number of extrinsics it originated.
pub proof fn lemma_run_counts_every_extrinsic(
    s: StateModel,
    block_number: u32,
    xts: Seq<types::Extrinsic>,
    base: int,
    who: Seq<char>,
)
    requires
        nonces_in_bounds(s.nonces, xts),
    ensures
        ({
            let (end, _failures) = spec_execute_from(s, block_number, xts, base);
            nonce_of(end.nonces, who) == nonce_of(s.nonces, who) + count_extrinsics_by(xts, who)
        }),
    decreases xts.len(),
{
    if xts.len() > 0 {
        let x = xts.first();
        let (next, _err) = spec_apply_extrinsic(s, x.caller@, x.call);
        assert(next.nonces == s.nonces.insert(
            x.caller@,
            (nonce_of(s.nonces, x.caller@) + 1) as u32,
        ));
        lemma_run_counts_every_extrinsic(next, block_number, xts.drop_first(), base + 1, who);
    }
}

impl support::Dispatch for Runtime {
    type Caller = types::AccountId;

    type Call = RuntimeCall;

    /// Routes the operation to the module that owns it; the module's own
    /// entry point routes within its variants in turn.
    fn dispatch(&mut self, caller: types::AccountId, runtime_call: RuntimeCall) -> (result:
        DispatchResult)
        ensures
            ({
                let (next, res) = spec_dispatch(old(self)@, caller@, runtime_call);
                final(self)@ == next && result == res
            }),
    {
        match runtime_call {
            RuntimeCall::Balances(call) => self.balances.dispatch(caller, call),
            RuntimeCall::ProofOfExistence(call) => self.proof_of_existence.dispatch(caller, call),
        }
    }
}

} // verus!
