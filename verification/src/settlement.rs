//! The per-user settlement pipeline: buff resolution, the two priority
//! automation slots, and the fallback disposition.
//!
//! Settlement computes the state after one user's yield is distributed and
//! reports the value transfers the runtime must perform out of the pool.
//! The whole call is atomic: on any error nothing changes and nothing is
//! transferred.

use vstd::prelude::*;

use crate::position::spec_update_faction_tvl;
use crate::state::{
    AutomationRule, FallbackAction, GameState, UserInventory, UserPosition, ZolError,
    spec_item_price, item_price, INSURANCE_PAYOUT, ITEM_SHIELD, ITEM_SPYGLASS, ITEM_SWORD,
};

verus! {

/// One value movement out of the collective pool that the surrounding
/// runtime must perform to commit a settlement.
#[derive(Clone, Copy, PartialEq, Eq, Structural, Debug)]
pub enum SettlementTransfer {
    /// An automated purchase: `price` moves from the pool to the item shop.
    ShopPurchase { price: u64 },
    /// The fallback payout: `amount` moves from the pool to the user's
    /// wallet.
    WalletPayout { amount: u64 },
}

/// Everything a committed settlement leaves behind: the new global state,
/// the new user position, and the transfers owed by the pool.
pub type SettlementOutcome = Result<(GameState, UserPosition, Seq<SettlementTransfer>), ZolError>;

/// A faction with a non-positive score lost the epoch; ties count as loss.
pub open spec fn spec_is_loss(score: i64) -> bool {
    score <= 0
}

/// Inventory after buff resolution: a losing user's shield, if any, is
/// consumed; nothing else changes (swords are never consumed).
pub open spec fn spec_buffed_inventory(score: i64, inv: UserInventory) -> UserInventory {
    if spec_is_loss(score) && inv.shield_count > 0 {
        UserInventory { shield_count: (inv.shield_count - 1) as u64, ..inv }
    } else {
        inv
    }
}

/// Yield entering the automation pipeline after buff resolution, as an
/// unbounded integer: a losing user is paid the flat insurance amount if a
/// shield absorbs the loss and nothing otherwise; a winning user with a
/// sword gets one fifth (rounded down) on top.
pub open spec fn spec_buffed_yield(score: i64, inv: UserInventory, yield_amount: u64) -> int {
    if spec_is_loss(score) {
        if inv.shield_count > 0 {
            INSURANCE_PAYOUT as int
        } else {
            0
        }
    } else if inv.sword_count > 0 {
        yield_amount + yield_amount / 5
    } else {
        yield_amount as int
    }
}

/// A slot triggers only when it is non-empty, the budget reaches its
/// threshold, the item has a price, and the budget covers that price; an
/// unaffordable slot is skipped entirely, with no partial purchase.
pub open spec fn spec_rule_fires(rule: AutomationRule, budget: u64) -> bool {
    &&& rule.item_id != 0
    &&& budget >= rule.threshold
    &&& spec_item_price(rule.item_id) != 0
    &&& budget >= spec_item_price(rule.item_id)
}

/// How many of the given item the inventory holds.
pub open spec fn spec_inventory_count(inv: UserInventory, item_id: u8) -> u64 {
    if item_id == ITEM_SWORD {
        inv.sword_count
    } else if item_id == ITEM_SHIELD {
        inv.shield_count
    } else if item_id == ITEM_SPYGLASS {
        inv.spyglass_count
    } else {
        0
    }
}

/// The inventory with one more of the given item.
pub open spec fn spec_bump_inventory(inv: UserInventory, item_id: u8) -> UserInventory {
    if item_id == ITEM_SWORD {
        UserInventory { sword_count: (inv.sword_count + 1) as u64, ..inv }
    } else if item_id == ITEM_SHIELD {
        UserInventory { shield_count: (inv.shield_count + 1) as u64, ..inv }
    } else if item_id == ITEM_SPYGLASS {
        UserInventory { spyglass_count: (inv.spyglass_count + 1) as u64, ..inv }
    } else {
        inv
    }
}

/// One priority slot against the running budget: either it does not fire
/// and changes nothing, or it debits the price, adds the item, and owes the
/// shop one transfer.  Exactly zero or one purchase per slot.
pub open spec fn spec_slot_step(rule: AutomationRule, budget: u64, inv: UserInventory) -> Result<
    (u64, UserInventory, Seq<SettlementTransfer>),
    ZolError,
> {
    if !spec_rule_fires(rule, budget) {
        Ok((budget, inv, Seq::empty()))
    } else if spec_inventory_count(inv, rule.item_id) == u64::MAX {
        Err(ZolError::ArithmeticOverflow)
    } else {
        let price = spec_item_price(rule.item_id);
        Ok(
            (
                (budget - price) as u64,
                spec_bump_inventory(inv, rule.item_id),
                seq![SettlementTransfer::ShopPurchase { price }],
            ),
        )
    }
}

/// The fallback disposition of whatever yield both slots left over: nothing
/// is owed on a zero remainder; otherwise it is either paid to the wallet
/// or compounded into the user's deposit and both wider aggregates.
pub open spec fn spec_fallback(gs: GameState, user: UserPosition, remaining: u64) -> SettlementOutcome {
    if remaining == 0 {
        Ok((gs, user, Seq::empty()))
    } else {
        match user.automation_settings.fallback_action {
            FallbackAction::SendToWallet => Ok(
                (gs, user, seq![SettlementTransfer::WalletPayout { amount: remaining }]),
            ),
            FallbackAction::AutoCompound => {
                let fid = user.faction_id as int;
                if user.deposited_amount + remaining <= u64::MAX && gs.total_tvl + remaining
                    <= u64::MAX && gs.factions[fid].tvl + remaining <= u64::MAX {
                    let gs2 = GameState {
                        total_tvl: (gs.total_tvl + remaining) as u64,
                        factions: spec_update_faction_tvl(
                            gs.factions,
                            fid,
                            (gs.factions[fid].tvl + remaining) as u64,
                        ),
                        ..gs
                    };
                    let user2 = UserPosition {
                        deposited_amount: (user.deposited_amount + remaining) as u64,
                        ..user
                    };
                    Ok((gs2, user2, Seq::empty()))
                } else {
                    Err(ZolError::ArithmeticOverflow)
                }
            },
        }
    }
}

/// The whole pipeline for one user: buff resolution, then slot one, then
/// slot two, then the fallback.  A losing user without a shield, or a zero
/// post-buff yield, commits successfully with no change and no transfer.
pub open spec fn spec_settlement(gs: GameState, user: UserPosition, yield_amount: u64) -> SettlementOutcome {
    let score = gs.factions[user.faction_id as int].score;
    let budget0 = spec_buffed_yield(score, user.inventory, yield_amount);
    if budget0 > u64::MAX {
        Err(ZolError::ArithmeticOverflow)
    } else if budget0 == 0 {
        Ok((gs, user, Seq::empty()))
    } else {
        let inv0 = spec_buffed_inventory(score, user.inventory);
        match spec_slot_step(user.automation_settings.priority_slot_1, budget0 as u64, inv0) {
            Err(e) => Err(e),
            Ok((budget1, inv1, transfers1)) => {
                match spec_slot_step(user.automation_settings.priority_slot_2, budget1, inv1) {
                    Err(e) => Err(e),
                    Ok((budget2, inv2, transfers2)) => {
                        let user1 = UserPosition { inventory: inv2, ..user };
                        match spec_fallback(gs, user1, budget2) {
                            Err(e) => Err(e),
                            Ok((gs2, user2, transfers3)) => Ok(
                                (gs2, user2, transfers1 + transfers2 + transfers3),
                            ),
                        }
                    },
                }
            },
        }
    }
}

/// Runs one priority slot, appending any purchase transfer it owes.
fn slot_step(
    rule: AutomationRule,
    budget: u64,
    inv: UserInventory,
    transfers: &mut Vec<SettlementTransfer>,
) -> (r: Result<(u64, UserInventory), ZolError>)
    ensures
        spec_slot_step(rule, budget, inv) matches Ok((budget2, inv2, owed)) ==> r == Ok::<
            (u64, UserInventory),
            ZolError,
        >((budget2, inv2)) && final(transfers)@ == old(transfers)@ + owed,
        spec_slot_step(rule, budget, inv) matches Err(e) ==> r == Err::<
            (u64, UserInventory),
            ZolError,
        >(e) && *final(transfers) == *old(transfers),
{
    if rule.item_id == 0 || budget < rule.threshold {
        proof {
            assert(old(transfers)@ + Seq::<SettlementTransfer>::empty() =~= old(transfers)@);
        }
        return Ok((budget, inv));
    }
    let price = item_price(rule.item_id);
    if price == 0 || budget < price {
        proof {
            assert(old(transfers)@ + Seq::<SettlementTransfer>::empty() =~= old(transfers)@);
        }
        return Ok((budget, inv));
    }
    let mut new_inv = inv;
    if rule.item_id == ITEM_SWORD {
        new_inv.sword_count = match inv.sword_count.checked_add(1) {
            Some(v) => v,
            None => {
                return Err(ZolError::ArithmeticOverflow);
            },
        };
    } else if rule.item_id == ITEM_SHIELD {
        new_inv.shield_count = match inv.shield_count.checked_add(1) {
            Some(v) => v,
            None => {
                return Err(ZolError::ArithmeticOverflow);
            },
        };
    } else {
        new_inv.spyglass_count = match inv.spyglass_count.checked_add(1) {
            Some(v) => v,
            None => {
                return Err(ZolError::ArithmeticOverflow);
            },
        };
    }
    transfers.push(SettlementTransfer::ShopPurchase { price });
    proof {
        assert(transfers@ =~= old(transfers)@ + seq![
            SettlementTransfer::ShopPurchase { price },
        ]);
    }
    Ok((budget - price, new_inv))
}

/// Settles one user for the epoch: applies buffs to the caller-supplied
/// yield, runs both priority slots, applies the fallback, and returns the
/// transfers the pool owes.  On any error (only arithmetic overflow arises
/// here) nothing changes and nothing is owed.
pub fn execute_settlement(gs: &mut GameState, user: &mut UserPosition, yield_amount: u64) -> (r:
    Result<Vec<SettlementTransfer>, ZolError>)
    requires
        old(user).wf(),
    ensures
        r matches Ok(transfers) ==> spec_settlement(*old(gs), *old(user), yield_amount)
            == Ok::<_, ZolError>((*final(gs), *final(user), transfers@)),
        r matches Err(e) ==> spec_settlement(*old(gs), *old(user), yield_amount)
            == Err::<(GameState, UserPosition, Seq<SettlementTransfer>), ZolError>(e) && *final(gs)
            == *old(gs) && *final(user) == *old(user) && e == ZolError::ArithmeticOverflow,
{
    let ghost spec_result = spec_settlement(*old(gs), *old(user), yield_amount);
    let score = gs.factions[user.faction_id as usize].score;
    let mut inv = user.inventory;
    let budget0: u64;
    if score <= 0 {
        if inv.shield_count > 0 {
            inv.shield_count = inv.shield_count - 1;
            budget0 = INSURANCE_PAYOUT;
        } else {
            return Ok(Vec::new());
        }
    } else {
        if inv.sword_count > 0 {
            let bonus = yield_amount / 5;
            budget0 = match yield_amount.checked_add(bonus) {
                Some(v) => v,
                None => {
                    return Err(ZolError::ArithmeticOverflow);
                },
            };
        } else {
            budget0 = yield_amount;
        }
    }
    if budget0 == 0 {
        return Ok(Vec::new());
    }
    let mut transfers: Vec<SettlementTransfer> = Vec::new();
    let (budget1, inv1) = match slot_step(
        user.automation_settings.priority_slot_1,
        budget0,
        inv,
        &mut transfers,
    ) {
        Ok(v) => v,
        Err(e) => {
            return Err(e);
        },
    };
    let (budget2, inv2) = match slot_step(
        user.automation_settings.priority_slot_2,
        budget1,
        inv1,
        &mut transfers,
    ) {
        Ok(v) => v,
        Err(e) => {
            return Err(e);
        },
    };
    proof {
        assert(spec_result matches Ok((sgs, suser, sts)) ==> sts =~= transfers@
            + spec_fallback_owed(*old(gs), *old(user), inv2, budget2));
    }
    if budget2 == 0 {
        user.inventory = inv2;
        proof {
            assert(transfers@ + Seq::<SettlementTransfer>::empty() =~= transfers@);
        }
        return Ok(transfers);
    }
    match user.automation_settings.fallback_action {
        FallbackAction::SendToWallet => {
            let ghost pre = transfers@;
            transfers.push(SettlementTransfer::WalletPayout { amount: budget2 });
            user.inventory = inv2;
            proof {
                assert(transfers@ =~= pre + seq![
                    SettlementTransfer::WalletPayout { amount: budget2 },
                ]);
            }
            Ok(transfers)
        },
        FallbackAction::AutoCompound => {
            let fid = user.faction_id as usize;
            let new_deposited = match user.deposited_amount.checked_add(budget2) {
                Some(v) => v,
                None => {
                    return Err(ZolError::ArithmeticOverflow);
                },
            };
            let new_total = match gs.total_tvl.checked_add(budget2) {
                Some(v) => v,
                None => {
                    return Err(ZolError::ArithmeticOverflow);
                },
            };
            let new_faction_tvl = match gs.factions[fid].tvl.checked_add(budget2) {
                Some(v) => v,
                None => {
                    return Err(ZolError::ArithmeticOverflow);
                },
            };
            user.inventory = inv2;
            user.deposited_amount = new_deposited;
            gs.total_tvl = new_total;
            let mut faction = gs.factions[fid];
            faction.tvl = new_faction_tvl;
            gs.factions[fid] = faction;
            proof {
                assert(gs.factions =~= spec_update_faction_tvl(
                    old(gs).factions,
                    fid as int,
                    (old(gs).factions[fid as int].tvl + budget2) as u64,
                ));
            }
            Ok(transfers)
        },
    }
}

/// Settlement is a no-op on zero yield: a user whose faction won (with or
/// without a sword, since a fifth of nothing is nothing) or who lost without
/// a shield commits with no state change and no transfer.
pub proof fn lemma_settlement_noop_on_zero_yield(gs: GameState, user: UserPosition)
    requires
        user.wf(),
        gs.factions[user.faction_id as int].score > 0 || user.inventory.shield_count == 0,
    ensures
        spec_settlement(gs, user, 0) == Ok::<_, ZolError>(
            (gs, user, Seq::<SettlementTransfer>::empty()),
        ),
{
}

/// Shield consumption: a losing user with a shield enters the automation
/// pipeline with exactly the flat insurance payout, whatever yield the
/// caller supplied, and holds one shield fewer; a losing user without one
/// commits with no transfer and no state change regardless of yield.
pub proof fn lemma_shield_consumption(gs: GameState, user: UserPosition, yield_amount: u64)
    requires
        user.wf(),
        spec_is_loss(gs.factions[user.faction_id as int].score),
    ensures
        user.inventory.shield_count > 0 ==> spec_buffed_yield(
            gs.factions[user.faction_id as int].score,
            user.inventory,
            yield_amount,
        ) == INSURANCE_PAYOUT,
        user.inventory.shield_count > 0 ==> spec_buffed_inventory(
            gs.factions[user.faction_id as int].score,
            user.inventory,
        ).shield_count == user.inventory.shield_count - 1,
        user.inventory.shield_count == 0 ==> spec_settlement(gs, user, yield_amount) == Ok::<
            _,
            ZolError,
        >((gs, user, Seq::<SettlementTransfer>::empty())),
{
}

/// Sword boost exactness: a winning user with at least one sword enters the
/// automation pipeline with exactly the supplied yield plus one fifth of it,
/// rounded down.
pub proof fn lemma_sword_boost(score: i64, inv: UserInventory, yield_amount: u64)
    requires
        !spec_is_loss(score),
        inv.sword_count >= 1,
    ensures
        spec_buffed_yield(score, inv, yield_amount) == yield_amount + yield_amount / 5,
{
}

/// An unaffordable slot above its threshold is skipped entirely: the budget
/// is untouched, the inventory unchanged, and nothing is owed.
pub proof fn lemma_slot_unaffordable(rule: AutomationRule, budget: u64, inv: UserInventory)
    requires
        spec_item_price(rule.item_id) != 0,
        budget >= rule.threshold,
        budget < spec_item_price(rule.item_id),
    ensures
        spec_slot_step(rule, budget, inv) == Ok::<_, ZolError>(
            (budget, inv, Seq::<SettlementTransfer>::empty()),
        ),
{
}

/// What a committed settlement does to the tracked aggregates: the user's
/// balance, the user's faction's total, and the global total all move by
/// one common delta (the compounded remainder, or zero), every other
/// faction's record is untouched, and identity fields never change.
pub proof fn lemma_settlement_aggregates(gs: GameState, user: UserPosition, yield_amount: u64)
    requires
        user.wf(),
        spec_settlement(gs, user, yield_amount) is Ok,
    ensures
        spec_settlement(gs, user, yield_amount) matches Ok((gs2, user2, owed)) ==> {
            let fid = user.faction_id as int;
            &&& user2.faction_id == user.faction_id
            &&& user2.owner == user.owner
            &&& user2.last_deposit_epoch == user.last_deposit_epoch
            &&& user2.automation_settings == user.automation_settings
            &&& gs2.admin == gs.admin
            &&& gs2.epoch_number == gs.epoch_number
            &&& gs2.epoch_start_ts == gs.epoch_start_ts
            &&& gs2.epoch_end_ts == gs.epoch_end_ts
            &&& gs2.status == gs.status
            &&& user2.deposited_amount - user.deposited_amount == gs2.total_tvl - gs.total_tvl
            &&& gs2.factions[fid].tvl - gs.factions[fid].tvl == gs2.total_tvl - gs.total_tvl
            &&& gs2.factions[fid].id == gs.factions[fid].id
            &&& gs2.factions[fid].score == gs.factions[fid].score
            &&& forall|j: int|
                0 <= j < 3 && j != fid ==> #[trigger] gs2.factions[j] == gs.factions[j]
        },
{
}

/// The transfers that the fallback stage alone owes, used to relate the
/// pipeline's running transfer list to the spec.
pub open spec fn spec_fallback_owed(
    gs: GameState,
    user: UserPosition,
    inv2: UserInventory,
    remaining: u64,
) -> Seq<SettlementTransfer> {
    let user1 = UserPosition { inventory: inv2, ..user };
    match spec_fallback(gs, user1, remaining) {
        Ok((gs2, user2, owed)) => owed,
        Err(e) => Seq::empty(),
    }
}

} // verus!
