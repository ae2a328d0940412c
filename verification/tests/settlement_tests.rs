use zol_contract::lifecycle::initialize_game;
use zol_contract::position::{deposit, register_user, update_automation};
use zol_contract::settlement::{execute_settlement, SettlementTransfer};
use zol_contract::state::{
    item_price, AutomationRule, FallbackAction, GameState, UserPosition, ZolError,
};

/// A game and one member of faction 0 holding a deposit of 1,000, with the
/// faction's score pinned to `score`.
fn world_with_score(score: i64) -> (GameState, UserPosition) {
    let mut gs = initialize_game(7, 0).unwrap();
    let mut user = register_user(11, 0, gs.epoch_number).unwrap();
    deposit(&mut gs, &mut user, 1_000).unwrap();
    gs.factions[0].score = score;
    (gs, user)
}

#[test]
fn item_prices_are_fixed() {
    assert_eq!(item_price(1), 10_000_000);
    assert_eq!(item_price(2), 2_000_000);
    assert_eq!(item_price(3), 5_000_000);
    assert_eq!(item_price(0), 0);
    assert_eq!(item_price(9), 0);
}

#[test]
fn settlement_zero_yield_without_buffs_is_a_noop() {
    let (mut gs, mut user) = world_with_score(100);
    let before_gs = gs;
    let before_user = user;
    let transfers = execute_settlement(&mut gs, &mut user, 0).unwrap();
    assert!(transfers.is_empty());
    assert_eq!(gs, before_gs);
    assert_eq!(user, before_user);
}

#[test]
fn losing_without_shield_changes_nothing_whatever_the_yield() {
    let (mut gs, mut user) = world_with_score(-1);
    let before_gs = gs;
    let before_user = user;
    let transfers = execute_settlement(&mut gs, &mut user, 123_456_789).unwrap();
    assert!(transfers.is_empty());
    assert_eq!(gs, before_gs);
    assert_eq!(user, before_user);
}

#[test]
fn losing_with_one_shield_gets_the_flat_insurance_payout() {
    let (mut gs, mut user) = world_with_score(0);
    user.inventory.shield_count = 1;
    update_automation(
        &mut user,
        AutomationRule { item_id: 0, threshold: 0 },
        AutomationRule { item_id: 0, threshold: 0 },
        FallbackAction::SendToWallet,
    );
    let transfers = execute_settlement(&mut gs, &mut user, 999_999_999).unwrap();
    assert_eq!(transfers, vec![SettlementTransfer::WalletPayout { amount: 2_000_000 }]);
    assert_eq!(user.inventory.shield_count, 0);
    assert_eq!(user.deposited_amount, 1_000);
    assert_eq!(gs.total_tvl, 1_000);
}

#[test]
fn losing_shield_payout_compounds_under_the_default_fallback() {
    let (mut gs, mut user) = world_with_score(-5_000);
    user.inventory.shield_count = 2;
    let transfers = execute_settlement(&mut gs, &mut user, 7).unwrap();
    assert!(transfers.is_empty());
    assert_eq!(user.inventory.shield_count, 1);
    assert_eq!(user.deposited_amount, 1_000 + 2_000_000);
    assert_eq!(gs.factions[0].tvl, 1_000 + 2_000_000);
    assert_eq!(gs.total_tvl, 1_000 + 2_000_000);
}

#[test]
fn winning_with_a_sword_boosts_yield_by_a_fifth() {
    let (mut gs, mut user) = world_with_score(1);
    user.inventory.sword_count = 1;
    update_automation(
        &mut user,
        AutomationRule { item_id: 0, threshold: 0 },
        AutomationRule { item_id: 0, threshold: 0 },
        FallbackAction::SendToWallet,
    );
    let transfers = execute_settlement(&mut gs, &mut user, 10_000_004).unwrap();
    // 10,000,004 + 10,000,004 / 5 rounded down
    assert_eq!(transfers, vec![SettlementTransfer::WalletPayout { amount: 12_000_004 }]);
    // swords are never consumed
    assert_eq!(user.inventory.sword_count, 1);
}

#[test]
fn winning_without_a_sword_keeps_the_yield_as_is() {
    let (mut gs, mut user) = world_with_score(1);
    update_automation(
        &mut user,
        AutomationRule { item_id: 0, threshold: 0 },
        AutomationRule { item_id: 0, threshold: 0 },
        FallbackAction::SendToWallet,
    );
    let transfers = execute_settlement(&mut gs, &mut user, 100).unwrap();
    assert_eq!(transfers, vec![SettlementTransfer::WalletPayout { amount: 100 }]);
}

#[test]
fn priority_slots_run_in_order_and_consume_the_budget() {
    let (mut gs, mut user) = world_with_score(1);
    update_automation(
        &mut user,
        AutomationRule { item_id: 1, threshold: 5_000_000 },
        AutomationRule { item_id: 2, threshold: 0 },
        FallbackAction::SendToWallet,
    );
    let transfers = execute_settlement(&mut gs, &mut user, 12_000_000).unwrap();
    assert_eq!(
        transfers,
        vec![
            SettlementTransfer::ShopPurchase { price: 10_000_000 },
            SettlementTransfer::ShopPurchase { price: 2_000_000 },
        ]
    );
    assert_eq!(user.inventory.sword_count, 1);
    assert_eq!(user.inventory.shield_count, 1);
    // the budget was fully consumed: no fallback transfer, no compounding
    assert_eq!(user.deposited_amount, 1_000);
    assert_eq!(gs.total_tvl, 1_000);
}

#[test]
fn unaffordable_slot_above_threshold_is_skipped_entirely() {
    let (mut gs, mut user) = world_with_score(1);
    let inventory_before = user.inventory;
    update_automation(
        &mut user,
        AutomationRule { item_id: 1, threshold: 1_000_000 },
        AutomationRule { item_id: 0, threshold: 0 },
        FallbackAction::SendToWallet,
    );
    let transfers = execute_settlement(&mut gs, &mut user, 3_000_000).unwrap();
    assert_eq!(transfers, vec![SettlementTransfer::WalletPayout { amount: 3_000_000 }]);
    assert_eq!(user.inventory, inventory_before);
}

#[test]
fn slot_below_threshold_does_not_trigger() {
    let (mut gs, mut user) = world_with_score(1);
    update_automation(
        &mut user,
        AutomationRule { item_id: 2, threshold: 5_000_000 },
        AutomationRule { item_id: 0, threshold: 0 },
        FallbackAction::SendToWallet,
    );
    let transfers = execute_settlement(&mut gs, &mut user, 4_000_000).unwrap();
    assert_eq!(transfers, vec![SettlementTransfer::WalletPayout { amount: 4_000_000 }]);
    assert_eq!(user.inventory.shield_count, 0);
}

#[test]
fn unknown_item_ids_price_at_zero_and_never_trigger() {
    let (mut gs, mut user) = world_with_score(1);
    update_automation(
        &mut user,
        AutomationRule { item_id: 9, threshold: 0 },
        AutomationRule { item_id: 0, threshold: 0 },
        FallbackAction::SendToWallet,
    );
    let transfers = execute_settlement(&mut gs, &mut user, 4_000_000).unwrap();
    assert_eq!(transfers, vec![SettlementTransfer::WalletPayout { amount: 4_000_000 }]);
    assert_eq!(user.inventory, zol_contract::state::UserInventory::default());
}

#[test]
fn autocompound_re_enters_the_conservation_aggregates() {
    let (mut gs, mut user) = world_with_score(1);
    let transfers = execute_settlement(&mut gs, &mut user, 1_000_000).unwrap();
    assert!(transfers.is_empty());
    assert_eq!(user.deposited_amount, 1_001_000);
    assert_eq!(gs.factions[0].tvl, 1_001_000);
    assert_eq!(gs.total_tvl, 1_001_000);
}

#[test]
fn settlement_overflow_aborts_atomically() {
    let (mut gs, mut user) = world_with_score(1);
    user.inventory.sword_count = 1;
    let before_gs = gs;
    let before_user = user;
    let r = execute_settlement(&mut gs, &mut user, u64::MAX);
    assert_eq!(r.unwrap_err(), ZolError::ArithmeticOverflow);
    assert_eq!(gs, before_gs);
    assert_eq!(user, before_user);
}
