use zol_contract::lifecycle::{initialize_game, resolve_epoch, start_new_epoch};
use zol_contract::state::{GameStatus, ZolError, EPOCH_DURATION_SECS};

#[test]
fn initialize_game_sets_genesis_state() {
    let gs = initialize_game(7, 1_000).unwrap();
    assert_eq!(gs.admin, 7);
    assert_eq!(gs.epoch_number, 1);
    assert_eq!(gs.epoch_start_ts, 1_000);
    assert_eq!(gs.epoch_end_ts, 1_000 + EPOCH_DURATION_SECS);
    assert_eq!(gs.total_tvl, 0);
    assert_eq!(gs.status, GameStatus::Active);
    for i in 0..3 {
        assert_eq!(gs.factions[i].id as usize, i);
        assert_eq!(gs.factions[i].tvl, 0);
        assert_eq!(gs.factions[i].score, 0);
    }
}

#[test]
fn initialize_game_rejects_timestamp_overflow() {
    let r = initialize_game(7, i64::MAX);
    assert_eq!(r.unwrap_err(), ZolError::ArithmeticOverflow);
}

#[test]
fn faction_names_follow_ids() {
    let gs = initialize_game(7, 0).unwrap();
    assert_eq!(gs.factions[0].name(), "Vanguard");
    assert_eq!(gs.factions[1].name(), "Mage");
    assert_eq!(gs.factions[2].name(), "Assassin");
}

#[test]
fn resolve_epoch_computes_exact_scores() {
    let mut gs = initialize_game(7, 0).unwrap();
    gs.factions[0].tvl = 100;
    gs.factions[1].tvl = 250;
    gs.factions[2].tvl = 650;
    gs.total_tvl = 1_000;
    resolve_epoch(&mut gs);
    assert_eq!(gs.status, GameStatus::Settlement);
    // score_0 = (650 - 250) / 1000 scaled: 4000
    assert_eq!(gs.factions[0].score, 4_000);
    // score_1 = (100 - 650) / 1000 scaled: -5500
    assert_eq!(gs.factions[1].score, -5_500);
    // score_2 = (250 - 100) / 1000 scaled: 1500
    assert_eq!(gs.factions[2].score, 1_500);
    assert_eq!(gs.factions[0].score + gs.factions[1].score + gs.factions[2].score, 0);
}

#[test]
fn resolve_epoch_truncation_error_stays_below_faction_count() {
    let mut gs = initialize_game(7, 0).unwrap();
    gs.factions[0].tvl = 10_002;
    gs.factions[1].tvl = 9_998;
    gs.factions[2].tvl = 10_000;
    gs.total_tvl = 30_000;
    resolve_epoch(&mut gs);
    // raw differences 2, 2, -4 give 0, 0 and -1 after truncation toward zero
    assert_eq!(gs.factions[0].score, 0);
    assert_eq!(gs.factions[1].score, 0);
    assert_eq!(gs.factions[2].score, -1);
    let sum = gs.factions[0].score + gs.factions[1].score + gs.factions[2].score;
    assert!(-3 < sum && sum < 3);
}

#[test]
fn resolve_epoch_with_zero_tvl_keeps_prior_scores() {
    let mut gs = initialize_game(7, 0).unwrap();
    gs.factions[0].score = 42;
    resolve_epoch(&mut gs);
    assert_eq!(gs.status, GameStatus::Settlement);
    assert_eq!(gs.factions[0].score, 42);
    assert_eq!(gs.factions[1].score, 0);
    assert_eq!(gs.factions[2].score, 0);
}

#[test]
fn start_new_epoch_resets_scores_and_advances_counter() {
    let mut gs = initialize_game(7, 0).unwrap();
    gs.factions[0].tvl = 5;
    gs.factions[1].tvl = 7;
    gs.factions[2].tvl = 9;
    gs.total_tvl = 21;
    resolve_epoch(&mut gs);
    let before = gs;
    start_new_epoch(&mut gs, 500_000).unwrap();
    assert_eq!(gs.epoch_number, before.epoch_number + 1);
    assert_eq!(gs.epoch_start_ts, 500_000);
    assert_eq!(gs.epoch_end_ts, 500_000 + EPOCH_DURATION_SECS);
    assert_eq!(gs.status, GameStatus::Active);
    for i in 0..3 {
        assert_eq!(gs.factions[i].score, 0);
        assert_eq!(gs.factions[i].tvl, before.factions[i].tvl);
    }
    assert_eq!(gs.total_tvl, before.total_tvl);
    assert_eq!(gs.admin, before.admin);
}

#[test]
fn start_new_epoch_rejects_counter_overflow() {
    let mut gs = initialize_game(7, 0).unwrap();
    gs.epoch_number = u64::MAX;
    let before = gs;
    let r = start_new_epoch(&mut gs, 500_000);
    assert_eq!(r.unwrap_err(), ZolError::ArithmeticOverflow);
    assert_eq!(gs, before);
}
