//! User positions: registration, deposits, withdrawals, and automation
//! updates.
//!
//! The surrounding runtime moves the actual tokens (user to pool on deposit,
//! pool to user on withdrawal) and only commits the state returned here when
//! that transfer succeeded; these functions maintain the tracked aggregates.

use vstd::prelude::*;

use crate::state::{
    AutomationRule, AutomationSettings, FactionState, FallbackAction, GameState, UserInventory,
    UserPosition, ZolError,
};

verus! {

/// The faction array with entry `i` replaced by `f`; entries outside 0..3
/// are left alone.
pub open spec fn spec_update_faction(
    fs: [FactionState; 3],
    i: int,
    f: FactionState,
) -> [FactionState; 3] {
    [
        if i == 0 {
            f
        } else {
            fs[0]
        },
        if i == 1 {
            f
        } else {
            fs[1]
        },
        if i == 2 {
            f
        } else {
            fs[2]
        },
    ]
}

/// The faction array with the deposit total of entry `i` replaced.
pub open spec fn spec_update_faction_tvl(
    fs: [FactionState; 3],
    i: int,
    new_tvl: u64,
) -> [FactionState; 3] {
    spec_update_faction(fs, i, FactionState { tvl: new_tvl, ..fs[i] })
}

/// A deposit commits exactly when none of the three tracked aggregates
/// overflows.
pub open spec fn spec_deposit_ok(gs: GameState, user: UserPosition, amount: u64) -> bool {
    &&& user.deposited_amount + amount <= u64::MAX
    &&& gs.total_tvl + amount <= u64::MAX
    &&& gs.factions[user.faction_id as int].tvl + amount <= u64::MAX
}

/// State after a successful deposit: the user's balance, the user's
/// faction's total, and the global total all grow by `amount`, and the
/// user's last deposit epoch is stamped.
pub open spec fn spec_deposit(gs: GameState, user: UserPosition, amount: u64) -> (
    GameState,
    UserPosition,
) {
    let fid = user.faction_id as int;
    let gs2 = GameState {
        total_tvl: (gs.total_tvl + amount) as u64,
        factions: spec_update_faction_tvl(
            gs.factions,
            fid,
            (gs.factions[fid].tvl + amount) as u64,
        ),
        ..gs
    };
    let user2 = UserPosition {
        deposited_amount: (user.deposited_amount + amount) as u64,
        last_deposit_epoch: gs.epoch_number,
        ..user
    };
    (gs2, user2)
}

/// A withdrawal commits exactly when all three tracked aggregates cover
/// `amount`; the last two conditions always hold once the conservation
/// invariant ties the aggregates together.
pub open spec fn spec_withdraw_ok(gs: GameState, user: UserPosition, amount: u64) -> bool {
    &&& amount <= user.deposited_amount
    &&& amount <= gs.total_tvl
    &&& amount <= gs.factions[user.faction_id as int].tvl
}

/// State after a successful withdrawal: the three aggregates shrink by
/// `amount` symmetrically.
pub open spec fn spec_withdraw(gs: GameState, user: UserPosition, amount: u64) -> (
    GameState,
    UserPosition,
) {
    let fid = user.faction_id as int;
    let gs2 = GameState {
        total_tvl: (gs.total_tvl - amount) as u64,
        factions: spec_update_faction_tvl(
            gs.factions,
            fid,
            (gs.factions[fid].tvl - amount) as u64,
        ),
        ..gs
    };
    let user2 = UserPosition { deposited_amount: (user.deposited_amount - amount) as u64, ..user };
    (gs2, user2)
}

/// Creates a fresh position in the given faction: zero balance, empty
/// inventory, both automation slots empty, compounding fallback.
///
/// Fails with `InvalidFaction` exactly on faction ids outside 0 through 2.
pub fn register_user(owner: u64, faction_id: u8, current_epoch: u64) -> (r: Result<
    UserPosition,
    ZolError,
>)
    ensures
        faction_id < 3 <==> r is Ok,
        r matches Ok(user) ==> user == (UserPosition {
            owner,
            faction_id,
            deposited_amount: 0,
            last_deposit_epoch: current_epoch,
            automation_settings: AutomationSettings::spec_default(),
            inventory: UserInventory::spec_empty(),
        }),
        r is Err ==> r == Err::<UserPosition, ZolError>(ZolError::InvalidFaction),
{
    if faction_id >= 3 {
        return Err(ZolError::InvalidFaction);
    }
    Ok(
        UserPosition {
            owner,
            faction_id,
            deposited_amount: 0,
            last_deposit_epoch: current_epoch,
            automation_settings: AutomationSettings::default(),
            inventory: UserInventory::default(),
        },
    )
}

/// Adds `amount` to the user's balance, the user's faction's total, and the
/// global total, and stamps the user's last deposit epoch.
///
/// Fails with `ArithmeticOverflow`, changing nothing, exactly when one of
/// the three aggregates would leave the numeric range.
pub fn deposit(gs: &mut GameState, user: &mut UserPosition, amount: u64) -> (r: Result<
    (),
    ZolError,
>)
    requires
        old(user).wf(),
    ensures
        r is Ok <==> spec_deposit_ok(*old(gs), *old(user), amount),
        r is Ok ==> (*final(gs), *final(user)) == spec_deposit(*old(gs), *old(user), amount),
        r is Err ==> *final(gs) == *old(gs) && *final(user) == *old(user) && r == Err::<
            (),
            ZolError,
        >(ZolError::ArithmeticOverflow),
{
    let fid = user.faction_id as usize;
    let new_deposited = match user.deposited_amount.checked_add(amount) {
        Some(v) => v,
        None => {
            return Err(ZolError::ArithmeticOverflow);
        },
    };
    let new_total = match gs.total_tvl.checked_add(amount) {
        Some(v) => v,
        None => {
            return Err(ZolError::ArithmeticOverflow);
        },
    };
    let new_faction_tvl = match gs.factions[fid].tvl.checked_add(amount) {
        Some(v) => v,
        None => {
            return Err(ZolError::ArithmeticOverflow);
        },
    };
    user.deposited_amount = new_deposited;
    user.last_deposit_epoch = gs.epoch_number;
    gs.total_tvl = new_total;
    let mut faction = gs.factions[fid];
    faction.tvl = new_faction_tvl;
    gs.factions[fid] = faction;
    proof {
        let (gs2, user2) = spec_deposit(*old(gs), *old(user), amount);
        assert(gs.factions =~= gs2.factions);
    }
    Ok(())
}

/// Removes `amount` from the user's balance, the user's faction's total, and
/// the global total.
///
/// Fails with `InsufficientFunds`, changing nothing, exactly when `amount`
/// exceeds the user's balance; fails with `ArithmeticOverflow` when the
/// balance covers it but a wider aggregate does not (impossible in any state
/// satisfying the conservation invariant).
pub fn withdraw(gs: &mut GameState, user: &mut UserPosition, amount: u64) -> (r: Result<
    (),
    ZolError,
>)
    requires
        old(user).wf(),
    ensures
        r is Ok <==> spec_withdraw_ok(*old(gs), *old(user), amount),
        r is Ok ==> (*final(gs), *final(user)) == spec_withdraw(*old(gs), *old(user), amount),
        r is Err ==> *final(gs) == *old(gs) && *final(user) == *old(user),
        r == Err::<(), ZolError>(ZolError::InsufficientFunds) <==> amount > old(
            user,
        ).deposited_amount,
        r is Err && amount <= old(user).deposited_amount ==> r == Err::<(), ZolError>(
            ZolError::ArithmeticOverflow,
        ),
{
    if amount > user.deposited_amount {
        return Err(ZolError::InsufficientFunds);
    }
    let fid = user.faction_id as usize;
    let new_total = match gs.total_tvl.checked_sub(amount) {
        Some(v) => v,
        None => {
            return Err(ZolError::ArithmeticOverflow);
        },
    };
    let new_faction_tvl = match gs.factions[fid].tvl.checked_sub(amount) {
        Some(v) => v,
        None => {
            return Err(ZolError::ArithmeticOverflow);
        },
    };
    user.deposited_amount = user.deposited_amount - amount;
    gs.total_tvl = new_total;
    let mut faction = gs.factions[fid];
    faction.tvl = new_faction_tvl;
    gs.factions[fid] = faction;
    proof {
        let (gs2, user2) = spec_withdraw(*old(gs), *old(user), amount);
        assert(gs.factions =~= gs2.factions);
    }
    Ok(())
}

/// Overwrites the caller's automation settings; item ids and thresholds are
/// not validated here but lazily at settlement time.
pub fn update_automation(
    user: &mut UserPosition,
    slot_1: AutomationRule,
    slot_2: AutomationRule,
    fallback: FallbackAction,
)
    ensures
        *final(user) == (UserPosition {
            automation_settings: AutomationSettings {
                priority_slot_1: slot_1,
                priority_slot_2: slot_2,
                fallback_action: fallback,
            },
            ..*old(user)
        }),
{
    user.automation_settings = AutomationSettings {
        priority_slot_1: slot_1,
        priority_slot_2: slot_2,
        fallback_action: fallback,
    };
}

} // verus!
