use crate::ops::{
    allocate_outcome, deallocate_outcome, deposit_outcome, initialized_battery, withdraw_outcome,
};
use crate::state::{consistent, total, Battery, ErrorCode, UserAccount};
use vstd::prelude::*;

verus! {

/// One call of the four balance operations: the amount it was given and, for
/// the two operations that move token value, the outcome of the external
/// transfer they invoked.
pub enum LedgerOp {
    Allocate { amount: u64 },
    Deallocate { amount: u64 },
    DepositEnergy { amount: u64, transfer_ok: bool },
    WithdrawEnergy { amount: u64, transfer_ok: bool },
}

/// The pool/user pair after one operation: the new records when the
/// operation succeeds, the old records unchanged when it is refused.
pub open spec fn step(b: Battery, u: UserAccount, op: LedgerOp) -> (Battery, UserAccount) {
    let outcome = match op {
        LedgerOp::Allocate { amount } => allocate_outcome(b, u, amount),
        LedgerOp::Deallocate { amount } => deallocate_outcome(b, u, amount),
        LedgerOp::DepositEnergy { amount, transfer_ok } => deposit_outcome(
            b,
            u,
            amount,
            transfer_ok,
        ),
        LedgerOp::WithdrawEnergy { amount, transfer_ok } => withdraw_outcome(
            b,
            u,
            amount,
            transfer_ok,
        ),
    };
    match outcome {
        Ok(next) => next,
        Err(_) => (b, u),
    }
}

/// The pool/user pair after a sequence of operations, applied first to last.
pub open spec fn run(b: Battery, u: UserAccount, trace: Seq<LedgerOp>) -> (Battery, UserAccount)
    decreases trace.len(),
{
    if trace.len() == 0 {
        (b, u)
    } else {
        run(step(b, u, trace[0]).0, step(b, u, trace[0]).1, trace.skip(1))
    }
}

/// A user account as it is created: nothing reserved, nothing deposited.
pub open spec fn fresh_user() -> UserAccount {
    UserAccount { allocated: 0, energy_balance: 0 }
}

/// Every operation — successful or refused — preserves the pair's combined
/// holdings `available + allocated + energy_balance`, and never touches the
/// pool's capacity or authority.
pub proof fn lemma_step_preserves_total(b: Battery, u: UserAccount, op: LedgerOp)
    ensures
        total(step(b, u, op).0, step(b, u, op).1) == total(b, u),
        step(b, u, op).0.capacity == b.capacity,
        step(b, u, op).0.authority == b.authority,
{
}

/// The combined holdings of a pair, and the pool's capacity, are unchanged
/// by any sequence of operations.
pub proof fn lemma_run_preserves_total(b: Battery, u: UserAccount, trace: Seq<LedgerOp>)
    ensures
        total(run(b, u, trace).0, run(b, u, trace).1) == total(b, u),
        run(b, u, trace).0.capacity == b.capacity,
    decreases trace.len(),
{
    if trace.len() != 0 {
        lemma_step_preserves_total(b, u, trace[0]);
        lemma_run_preserves_total(step(b, u, trace[0]).0, step(b, u, trace[0]).1, trace.skip(1));
    }
}

/// Every operation preserves consistency of the pair: once the combined
/// holdings fit within the pool's capacity, they always do.
pub proof fn lemma_step_preserves_consistent(b: Battery, u: UserAccount, op: LedgerOp)
    requires
        consistent(b, u),
    ensures
        consistent(step(b, u, op).0, step(b, u, op).1),
{
    lemma_step_preserves_total(b, u, op);
}

/// Invariant: in every state reachable from a fresh pool and a fresh user by
/// any sequence of operations, `0 <= available <= capacity`.
pub proof fn lemma_available_bounded(capacity: u64, authority: [u8; 32], trace: Seq<LedgerOp>)
    ensures
        ({
            let s = run(initialized_battery(capacity, authority), fresh_user(), trace);
            0 <= s.0.available <= s.0.capacity && s.0.capacity == capacity
        }),
{
    lemma_run_preserves_total(initialized_battery(capacity, authority), fresh_user(), trace);
}

/// Invariant: in every state reachable from a fresh pool and a fresh user,
/// the user's reservation and energy balance are non-negative.
pub proof fn lemma_user_balances_nonnegative(
    capacity: u64,
    authority: [u8; 32],
    trace: Seq<LedgerOp>,
)
    ensures
        ({
            let s = run(initialized_battery(capacity, authority), fresh_user(), trace);
            s.1.allocated >= 0 && s.1.energy_balance >= 0
        }),
{
}

/// True when every operation in the trace is an allocate or a deallocate.
pub open spec fn reservation_ops_only(trace: Seq<LedgerOp>) -> bool {
    forall|i: int|
        0 <= i < trace.len() ==> (trace[i] is Allocate || trace[i] is Deallocate)
}

/// Conservation: a sequence of allocate and deallocate calls — with no
/// deposits or withdrawals — leaves `available + allocated` and the user's
/// energy balance unchanged, whether or not each call succeeds.
pub proof fn lemma_reservation_sequence_conserves(
    b: Battery,
    u: UserAccount,
    trace: Seq<LedgerOp>,
)
    requires
        reservation_ops_only(trace),
    ensures
        ({
            let s = run(b, u, trace);
            s.0.available + s.1.allocated == b.available + u.allocated && s.1.energy_balance
                == u.energy_balance
        }),
    decreases trace.len(),
{
    if trace.len() != 0 {
        assert(trace[0] is Allocate || trace[0] is Deallocate);
        let rest = trace.skip(1);
        assert forall|i: int|
            0 <= i < rest.len() implies (rest[i] is Allocate || rest[i] is Deallocate) by {
            assert(rest[i] == trace[i + 1]);
        }
        lemma_reservation_sequence_conserves(step(b, u, trace[0]).0, step(b, u, trace[0]).1, rest);
    }
}

/// Round trip: allocating `amount` and then deallocating `amount` restores
/// the pool and the user exactly, for any `amount` at most the spare
/// capacity, provided the enlarged reservation stays representable.
pub proof fn lemma_allocate_roundtrip(b: Battery, u: UserAccount, amount: u64)
    requires
        amount <= b.available,
        u.allocated + amount <= u64::MAX,
    ensures
        allocate_outcome(b, u, amount) is Ok,
        ({
            let next = allocate_outcome(b, u, amount)->Ok_0;
            deallocate_outcome(next.0, next.1, amount) == Ok::<(Battery, UserAccount), ErrorCode>(
                (b, u),
            )
        }),
{
}

/// Round trip: depositing `amount` and then withdrawing `amount`, with the
/// external transfer succeeding both times, restores the pool and the user
/// exactly. The withdrawal's own spare-capacity check demands that the spare
/// capacity left by the deposit still covers `amount`.
pub proof fn lemma_deposit_roundtrip(b: Battery, u: UserAccount, amount: u64)
    requires
        b.available + amount <= b.capacity,
        u.energy_balance + amount <= u64::MAX,
        amount <= b.available - amount,
    ensures
        deposit_outcome(b, u, amount, true) is Ok,
        ({
            let next = deposit_outcome(b, u, amount, true)->Ok_0;
            withdraw_outcome(next.0, next.1, amount, true) == Ok::<
                (Battery, UserAccount),
                ErrorCode,
            >((b, u))
        }),
{
}

/// Atomicity: when the external transfer fails, neither operation that moves
/// token value ever succeeds, so the ledger is left exactly as it was.
pub proof fn lemma_failed_transfer_never_commits(b: Battery, u: UserAccount, amount: u64)
    ensures
        deposit_outcome(b, u, amount, false) is Err,
        withdraw_outcome(b, u, amount, false) is Err,
{
}

} // verus!
