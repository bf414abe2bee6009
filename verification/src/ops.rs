use crate::state::{Battery, ErrorCode, UserAccount};
use vstd::prelude::*;

verus! {

/// The battery produced by `initialize`: all capacity spare.
pub open spec fn initialized_battery(capacity: u64, authority: [u8; 32]) -> Battery {
    Battery { capacity, available: capacity, authority }
}

/// What `allocate` does: reserve `amount` of the pool's spare capacity for
/// the user, moving no energy value, or refuse and change nothing.
pub open spec fn allocate_outcome(b: Battery, u: UserAccount, amount: u64) -> Result<
    (Battery, UserAccount),
    ErrorCode,
> {
    if b.available < amount {
        Err(ErrorCode::InsufficientCapacity)
    } else if u.allocated + amount > u64::MAX {
        Err(ErrorCode::ArithmeticOverflow)
    } else {
        Ok(
            (
                Battery { available: (b.available - amount) as u64, ..b },
                UserAccount { allocated: (u.allocated + amount) as u64, ..u },
            ),
        )
    }
}

/// What `deallocate` does: release `amount` of a previously held reservation
/// back to the pool's spare capacity, or refuse and change nothing.
pub open spec fn deallocate_outcome(b: Battery, u: UserAccount, amount: u64) -> Result<
    (Battery, UserAccount),
    ErrorCode,
> {
    if u.allocated < amount {
        Err(ErrorCode::InsufficientAllocation)
    } else if b.available + amount > u64::MAX {
        Err(ErrorCode::ArithmeticOverflow)
    } else {
        Ok(
            (
                Battery { available: (b.available + amount) as u64, ..b },
                UserAccount { allocated: (u.allocated - amount) as u64, ..u },
            ),
        )
    }
}

/// The local checks of `deposit_energy`: a deposit must fit under the pool's
/// capacity, must not consume more spare capacity than there is, and must
/// keep the user's energy balance representable.
pub open spec fn deposit_guard(b: Battery, u: UserAccount, amount: u64) -> Result<
    (),
    ErrorCode,
> {
    if b.available + amount > b.capacity {
        Err(ErrorCode::BatteryFull)
    } else if b.available < amount {
        Err(ErrorCode::ArithmeticOverflow)
    } else if u.energy_balance + amount > u64::MAX {
        Err(ErrorCode::ArithmeticOverflow)
    } else {
        Ok(())
    }
}

/// What `deposit_energy` does once the external transfer's outcome is known:
/// convert `amount` of externally held token value into energy balance,
/// consuming `amount` of the pool's spare capacity, or refuse and change
/// nothing. `transfer_ok` reports whether the external transfer of `amount`
/// from the user's custody to the pool's custody succeeded; a failed transfer
/// fails the whole operation.
pub open spec fn deposit_outcome(
    b: Battery,
    u: UserAccount,
    amount: u64,
    transfer_ok: bool,
) -> Result<(Battery, UserAccount), ErrorCode> {
    if deposit_guard(b, u, amount) is Err {
        Err(deposit_guard(b, u, amount)->Err_0)
    } else if !transfer_ok {
        Err(ErrorCode::TransferFailed)
    } else {
        Ok(
            (
                Battery { available: (b.available - amount) as u64, ..b },
                UserAccount { energy_balance: (u.energy_balance + amount) as u64, ..u },
            ),
        )
    }
}

/// The local checks of `withdraw_energy`: the user must hold at least
/// `amount` of settled energy, the pool's spare capacity must cover `amount`
/// (capacity that is nominally tracked but allocated out cannot back a
/// withdrawal), and the released capacity must stay representable.
pub open spec fn withdraw_guard(b: Battery, u: UserAccount, amount: u64) -> Result<
    (),
    ErrorCode,
> {
    if u.energy_balance < amount {
        Err(ErrorCode::InsufficientBalance)
    } else if b.available < amount {
        Err(ErrorCode::InsufficientEnergy)
    } else if b.available + amount > u64::MAX {
        Err(ErrorCode::ArithmeticOverflow)
    } else {
        Ok(())
    }
}

/// What `withdraw_energy` does once the external transfer's outcome is known:
/// convert `amount` of energy balance back into externally held token value,
/// releasing `amount` of spare capacity, or refuse and change nothing.
/// `transfer_ok` reports whether the external transfer of `amount` from the
/// pool's custody to the user's custody succeeded; a failed transfer fails
/// the whole operation.
pub open spec fn withdraw_outcome(
    b: Battery,
    u: UserAccount,
    amount: u64,
    transfer_ok: bool,
) -> Result<(Battery, UserAccount), ErrorCode> {
    if withdraw_guard(b, u, amount) is Err {
        Err(withdraw_guard(b, u, amount)->Err_0)
    } else if !transfer_ok {
        Err(ErrorCode::TransferFailed)
    } else {
        Ok(
            (
                Battery { available: (b.available + amount) as u64, ..b },
                UserAccount { energy_balance: (u.energy_balance - amount) as u64, ..u },
            ),
        )
    }
}

/// Creates a pool with every unit of capacity spare. Any capacity, including
/// zero, is accepted.
pub fn initialize(capacity: u64, authority: [u8; 32]) -> (battery: Battery)
    ensures
        battery == initialized_battery(capacity, authority),
        battery.capacity == capacity,
        battery.available == capacity,
{
    Battery { capacity, available: capacity, authority }
}

/// Reserves `amount` of the pool's spare capacity for the user. Succeeds if
/// and only if `amount` fits in the spare capacity and the user's reservation
/// stays representable; on refusal both records are unchanged.
pub fn allocate(battery: &mut Battery, user: &mut UserAccount, amount: u64) -> (r: Result<
    (),
    ErrorCode,
>)
    ensures
        (match allocate_outcome(*old(battery), *old(user), amount) {
            Ok(next) => {
                &&& r is Ok
                &&& *final(battery) == next.0
                &&& *final(user) == next.1
            },
            Err(e) => {
                &&& r == Err::<(), ErrorCode>(e)
                &&& *final(battery) == *old(battery)
                &&& *final(user) == *old(user)
            },
        }),
{
    if battery.available < amount {
        return Err(ErrorCode::InsufficientCapacity);
    }
    if amount > u64::MAX - user.allocated {
        return Err(ErrorCode::ArithmeticOverflow);
    }
    battery.available = battery.available - amount;
    user.allocated = user.allocated + amount;
    Ok(())
}

/// Releases `amount` of the user's reservation back to the pool's spare
/// capacity. Succeeds if and only if the user holds at least `amount` and the
/// spare capacity stays representable; on refusal both records are unchanged.
pub fn deallocate(battery: &mut Battery, user: &mut UserAccount, amount: u64) -> (r: Result<
    (),
    ErrorCode,
>)
    ensures
        (match deallocate_outcome(*old(battery), *old(user), amount) {
            Ok(next) => {
                &&& r is Ok
                &&& *final(battery) == next.0
                &&& *final(user) == next.1
            },
            Err(e) => {
                &&& r == Err::<(), ErrorCode>(e)
                &&& *final(battery) == *old(battery)
                &&& *final(user) == *old(user)
            },
        }),
{
    if user.allocated < amount {
        return Err(ErrorCode::InsufficientAllocation);
    }
    if amount > u64::MAX - battery.available {
        return Err(ErrorCode::ArithmeticOverflow);
    }
    battery.available = battery.available + amount;
    user.allocated = user.allocated - amount;
    Ok(())
}

/// Converts `amount` of the user's externally held token value into energy
/// balance, consuming `amount` of the pool's spare capacity. The caller
/// performs the external transfer from the user's custody to the pool's
/// custody and reports its outcome in `transfer_ok`; the ledger commits only
/// when the checks pass and the transfer succeeded, so a failed transfer
/// leaves both records unchanged.
pub fn deposit_energy(
    battery: &mut Battery,
    user: &mut UserAccount,
    amount: u64,
    transfer_ok: bool,
) -> (r: Result<(), ErrorCode>)
    ensures
        (match deposit_outcome(*old(battery), *old(user), amount, transfer_ok) {
            Ok(next) => {
                &&& r is Ok
                &&& *final(battery) == next.0
                &&& *final(user) == next.1
            },
            Err(e) => {
                &&& r == Err::<(), ErrorCode>(e)
                &&& *final(battery) == *old(battery)
                &&& *final(user) == *old(user)
            },
        }),
{
    if (battery.available as u128) + (amount as u128) > (battery.capacity as u128) {
        return Err(ErrorCode::BatteryFull);
    }
    if battery.available < amount {
        return Err(ErrorCode::ArithmeticOverflow);
    }
    if amount > u64::MAX - user.energy_balance {
        return Err(ErrorCode::ArithmeticOverflow);
    }
    if !transfer_ok {
        return Err(ErrorCode::TransferFailed);
    }
    battery.available = battery.available - amount;
    user.energy_balance = user.energy_balance + amount;
    Ok(())
}

/// Converts `amount` of the user's energy balance back into externally held
/// token value, releasing `amount` of spare capacity. The caller performs the
/// external transfer from the pool's custody to the user's custody and
/// reports its outcome in `transfer_ok`; the ledger commits only when the
/// checks pass and the transfer succeeded, so a failed transfer leaves both
/// records unchanged.
pub fn withdraw_energy(
    battery: &mut Battery,
    user: &mut UserAccount,
    amount: u64,
    transfer_ok: bool,
) -> (r: Result<(), ErrorCode>)
    ensures
        (match withdraw_outcome(*old(battery), *old(user), amount, transfer_ok) {
            Ok(next) => {
                &&& r is Ok
                &&& *final(battery) == next.0
                &&& *final(user) == next.1
            },
            Err(e) => {
                &&& r == Err::<(), ErrorCode>(e)
                &&& *final(battery) == *old(battery)
                &&& *final(user) == *old(user)
            },
        }),
{
    if user.energy_balance < amount {
        return Err(ErrorCode::InsufficientBalance);
    }
    if battery.available < amount {
        return Err(ErrorCode::InsufficientEnergy);
    }
    if amount > u64::MAX - battery.available {
        return Err(ErrorCode::ArithmeticOverflow);
    }
    if !transfer_ok {
        return Err(ErrorCode::TransferFailed);
    }
    battery.available = battery.available + amount;
    user.energy_balance = user.energy_balance - amount;
    Ok(())
}

/// Evaluates the local checks of `deposit_energy` without changing anything,
/// so a caller can decide whether to attempt the external transfer at all.
pub fn check_deposit(battery: &Battery, user: &UserAccount, amount: u64) -> (r: Result<
    (),
    ErrorCode,
>)
    ensures
        r == deposit_guard(*battery, *user, amount),
{
    if (battery.available as u128) + (amount as u128) > (battery.capacity as u128) {
        return Err(ErrorCode::BatteryFull);
    }
    if battery.available < amount {
        return Err(ErrorCode::ArithmeticOverflow);
    }
    if amount > u64::MAX - user.energy_balance {
        return Err(ErrorCode::ArithmeticOverflow);
    }
    Ok(())
}

/// Evaluates the local checks of `withdraw_energy` without changing anything,
/// so a caller can decide whether to attempt the external transfer at all.
pub fn check_withdraw(battery: &Battery, user: &UserAccount, amount: u64) -> (r: Result<
    (),
    ErrorCode,
>)
    ensures
        r == withdraw_guard(*battery, *user, amount),
{
    if user.energy_balance < amount {
        return Err(ErrorCode::InsufficientBalance);
    }
    if battery.available < amount {
        return Err(ErrorCode::InsufficientEnergy);
    }
    if amount > u64::MAX - battery.available {
        return Err(ErrorCode::ArithmeticOverflow);
    }
    Ok(())
}

} // verus!
