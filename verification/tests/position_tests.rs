use zol_contract::lifecycle::initialize_game;
use zol_contract::position::{deposit, register_user, update_automation, withdraw};
use zol_contract::state::{
    AutomationRule, FallbackAction, GameState, UserPosition, ZolError,
};

fn fresh_world() -> (GameState, UserPosition) {
    let gs = initialize_game(7, 0).unwrap();
    let user = register_user(11, 1, gs.epoch_number).unwrap();
    (gs, user)
}

#[test]
fn register_user_starts_with_safe_defaults() {
    let user = register_user(11, 2, 5).unwrap();
    assert_eq!(user.owner, 11);
    assert_eq!(user.faction_id, 2);
    assert_eq!(user.deposited_amount, 0);
    assert_eq!(user.last_deposit_epoch, 5);
    assert_eq!(user.automation_settings.priority_slot_1.item_id, 0);
    assert_eq!(user.automation_settings.priority_slot_1.threshold, 0);
    assert_eq!(user.automation_settings.priority_slot_2.item_id, 0);
    assert_eq!(user.automation_settings.fallback_action, FallbackAction::AutoCompound);
    assert_eq!(user.inventory.sword_count, 0);
    assert_eq!(user.inventory.shield_count, 0);
    assert_eq!(user.inventory.spyglass_count, 0);
}

#[test]
fn register_user_rejects_out_of_range_faction() {
    assert_eq!(register_user(11, 3, 1).unwrap_err(), ZolError::InvalidFaction);
    assert_eq!(register_user(11, 255, 1).unwrap_err(), ZolError::InvalidFaction);
}

#[test]
fn deposit_grows_all_three_aggregates() {
    let (mut gs, mut user) = fresh_world();
    deposit(&mut gs, &mut user, 1_000).unwrap();
    assert_eq!(user.deposited_amount, 1_000);
    assert_eq!(user.last_deposit_epoch, 1);
    assert_eq!(gs.factions[1].tvl, 1_000);
    assert_eq!(gs.factions[0].tvl, 0);
    assert_eq!(gs.factions[2].tvl, 0);
    assert_eq!(gs.total_tvl, 1_000);
}

#[test]
fn deposit_rejects_overflow_and_changes_nothing() {
    let (mut gs, mut user) = fresh_world();
    deposit(&mut gs, &mut user, u64::MAX).unwrap();
    let before_gs = gs;
    let before_user = user;
    let r = deposit(&mut gs, &mut user, 1);
    assert_eq!(r.unwrap_err(), ZolError::ArithmeticOverflow);
    assert_eq!(gs, before_gs);
    assert_eq!(user, before_user);
}

#[test]
fn withdraw_exact_balance_leaves_zero() {
    let (mut gs, mut user) = fresh_world();
    deposit(&mut gs, &mut user, 500).unwrap();
    withdraw(&mut gs, &mut user, 500).unwrap();
    assert_eq!(user.deposited_amount, 0);
    assert_eq!(gs.factions[1].tvl, 0);
    assert_eq!(gs.total_tvl, 0);
}

#[test]
fn withdraw_beyond_balance_fails_and_changes_nothing() {
    let (mut gs, mut user) = fresh_world();
    deposit(&mut gs, &mut user, 500).unwrap();
    let before_gs = gs;
    let before_user = user;
    let r = withdraw(&mut gs, &mut user, 501);
    assert_eq!(r.unwrap_err(), ZolError::InsufficientFunds);
    assert_eq!(gs, before_gs);
    assert_eq!(user, before_user);
}

#[test]
fn update_automation_overwrites_settings() {
    let (_, mut user) = fresh_world();
    update_automation(
        &mut user,
        AutomationRule { item_id: 1, threshold: 5_000_000 },
        AutomationRule { item_id: 2, threshold: 0 },
        FallbackAction::SendToWallet,
    );
    assert_eq!(user.automation_settings.priority_slot_1.item_id, 1);
    assert_eq!(user.automation_settings.priority_slot_1.threshold, 5_000_000);
    assert_eq!(user.automation_settings.priority_slot_2.item_id, 2);
    assert_eq!(user.automation_settings.fallback_action, FallbackAction::SendToWallet);
}
