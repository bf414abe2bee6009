use vstd::prelude::*;

verus! {

/// A shared resource pool ("battery"). `capacity` is fixed at creation and
/// bounds `available`, the spare capacity not currently reserved by an
/// allocation and not currently backing deposited energy.
#[derive(Clone, Copy, Debug)]
pub struct Battery {
    pub capacity: u64,
    pub available: u64,
    /// Identity permitted to create the pool; never read by the balance
    /// logic, which assumes every call was already authorized.
    pub authority: [u8; 32],
}

/// One user's account against a single pool: the capacity the user has
/// reserved, and the settled energy value the user may withdraw, backed 1:1
/// by tokens held in the pool's custody.
#[derive(Clone, Copy, Debug, PartialEq, Eq, Structural)]
pub struct UserAccount {
    pub allocated: u64,
    pub energy_balance: u64,
}

/// Why an operation was refused. Every refusal leaves both records unchanged.
#[derive(Clone, Copy, Debug, PartialEq, Eq, Structural)]
pub enum ErrorCode {
    /// `allocate` requested more than the pool's spare capacity.
    InsufficientCapacity,
    /// `deallocate` requested more than the user currently holds.
    InsufficientAllocation,
    /// `deposit_energy` would exceed the pool's capacity.
    BatteryFull,
    /// `withdraw_energy` requested more than the user's settled energy.
    InsufficientBalance,
    /// `withdraw_energy` requested more than the pool's spare capacity.
    InsufficientEnergy,
    /// An addition or subtraction would leave the unsigned 64-bit range.
    ArithmeticOverflow,
    /// The external token transfer reported failure; local state was rolled
    /// back.
    TransferFailed,
}

/// The combined holdings of a pool/user pair: spare capacity plus the user's
/// reservation plus the user's energy. Every operation preserves this sum.
pub open spec fn total(b: Battery, u: UserAccount) -> int {
    b.available + u.allocated + u.energy_balance
}

/// A pool/user pair is consistent when its combined holdings fit within the
/// pool's capacity. A freshly created pool with a fresh user satisfies this,
/// and every operation preserves it.
pub open spec fn consistent(b: Battery, u: UserAccount) -> bool {
    total(b, u) <= b.capacity
}

impl UserAccount {
    /// A freshly created account: nothing reserved, nothing deposited.
    pub fn new() -> (u: UserAccount)
        ensures
            u.allocated == 0,
            u.energy_balance == 0,
    {
        UserAccount { allocated: 0, energy_balance: 0 }
    }
}

} // verus!
