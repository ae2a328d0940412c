use zol_contract::lifecycle::{initialize_game, resolve_epoch, start_new_epoch};
use zol_contract::position::{deposit, register_user, withdraw};
use zol_contract::settlement::execute_settlement;
use zol_contract::state::{GameState, UserPosition};

fn assert_conserved(gs: &GameState, users: &[UserPosition]) {
    let faction_sum: u64 = gs.factions.iter().map(|f| f.tvl).sum();
    let user_sum: u64 = users.iter().map(|u| u.deposited_amount).sum();
    assert_eq!(gs.total_tvl, faction_sum);
    assert_eq!(gs.total_tvl, user_sum);
    for (fid, faction) in gs.factions.iter().enumerate() {
        let members: u64 = users
            .iter()
            .filter(|u| u.faction_id as usize == fid)
            .map(|u| u.deposited_amount)
            .sum();
        assert_eq!(faction.tvl, members);
    }
}

#[test]
fn conservation_holds_across_a_whole_epoch_of_operations() {
    let mut gs = initialize_game(7, 0).unwrap();
    let mut users = vec![
        register_user(11, 0, gs.epoch_number).unwrap(),
        register_user(12, 1, gs.epoch_number).unwrap(),
        register_user(13, 2, gs.epoch_number).unwrap(),
        register_user(14, 0, gs.epoch_number).unwrap(),
    ];
    assert_conserved(&gs, &users);

    deposit(&mut gs, &mut users[0], 5_000_000).unwrap();
    assert_conserved(&gs, &users);
    deposit(&mut gs, &mut users[1], 3_000_000).unwrap();
    assert_conserved(&gs, &users);
    deposit(&mut gs, &mut users[2], 2_000_000).unwrap();
    assert_conserved(&gs, &users);
    deposit(&mut gs, &mut users[3], 1_000_000).unwrap();
    assert_conserved(&gs, &users);

    withdraw(&mut gs, &mut users[1], 500_000).unwrap();
    assert_conserved(&gs, &users);

    // a rejected withdrawal changes nothing
    assert!(withdraw(&mut gs, &mut users[2], u64::MAX).is_err());
    assert_conserved(&gs, &users);

    resolve_epoch(&mut gs);
    assert_conserved(&gs, &users);

    // settle every user under the default compounding fallback; yields that
    // compound re-enter all three aggregate levels together
    for (i, yield_amount) in [400_000u64, 250_000, 0, 125_000].iter().enumerate() {
        execute_settlement(&mut gs, &mut users[i], *yield_amount).unwrap();
        assert_conserved(&gs, &users);
    }

    start_new_epoch(&mut gs, 300_000).unwrap();
    assert_conserved(&gs, &users);
}

#[test]
fn tiny_yields_boost_to_nothing_extra() {
    // a fifth of 4 rounds down to 0: the boosted budget equals the yield
    let mut gs = initialize_game(7, 0).unwrap();
    let mut user = register_user(11, 0, 1).unwrap();
    deposit(&mut gs, &mut user, 100).unwrap();
    gs.factions[0].score = 1;
    user.inventory.sword_count = 3;
    let transfers = execute_settlement(&mut gs, &mut user, 4).unwrap();
    assert!(transfers.is_empty());
    assert_eq!(user.deposited_amount, 104);
    assert_eq!(gs.total_tvl, 104);
}
