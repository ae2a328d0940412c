//! Epoch lifecycle: genesis, closing an epoch (which recomputes scores),
//! and opening the next one.
//!
//! The wall clock is an external collaborator: callers read it once per
//! transition and pass the timestamp in.  Authorization (these operations
//! are admin-only) is likewise enforced by the surrounding runtime.

use vstd::prelude::*;

use crate::scoring::{faction_score, lemma_score_bounds, spec_predator_of, spec_score, spec_target_of};
use crate::state::{
    FactionState, GameState, GameStatus, ZolError, EPOCH_DURATION_SECS,
};

verus! {

/// The state created at genesis: epoch 1, a fresh three-day window, no
/// deposits, zeroed factions, active status.
pub open spec fn spec_initial_game_state(admin: u64, now_ts: i64) -> GameState {
    GameState {
        admin,
        epoch_number: 1,
        epoch_start_ts: now_ts,
        epoch_end_ts: (now_ts + EPOCH_DURATION_SECS) as i64,
        total_tvl: 0,
        factions: [
            FactionState { id: 0, tvl: 0, score: 0 },
            FactionState { id: 1, tvl: 0, score: 0 },
            FactionState { id: 2, tvl: 0, score: 0 },
        ],
        status: GameStatus::Active,
    }
}

/// The state after closing an epoch: status moves to settlement and, when
/// any value is deposited, every faction's score is recomputed from the
/// triangle; with nothing deposited the prior scores stand.
pub open spec fn spec_closed_epoch(gs: GameState) -> GameState {
    if gs.total_tvl == 0 {
        GameState { status: GameStatus::Settlement, ..gs }
    } else {
        GameState {
            status: GameStatus::Settlement,
            factions: [
                FactionState { score: spec_faction_score(gs, 0), ..gs.factions[0] },
                FactionState { score: spec_faction_score(gs, 1), ..gs.factions[1] },
                FactionState { score: spec_faction_score(gs, 2), ..gs.factions[2] },
            ],
            ..gs
        }
    }
}

/// The score faction `fid` earns at epoch close: its target's share minus
/// its predator's share, scaled and truncated.
pub open spec fn spec_faction_score(gs: GameState, fid: int) -> i64 {
    spec_score(
        gs.factions[spec_target_of(fid)].tvl,
        gs.factions[spec_predator_of(fid)].tvl,
        gs.total_tvl,
    ) as i64
}

/// The state after opening the next epoch: the counter advances by one, a
/// fresh three-day window starts, status returns to active, and all three
/// scores reset to zero while every deposit total persists.
pub open spec fn spec_opened_epoch(gs: GameState, now_ts: i64) -> GameState {
    GameState {
        epoch_number: (gs.epoch_number + 1) as u64,
        epoch_start_ts: now_ts,
        epoch_end_ts: (now_ts + EPOCH_DURATION_SECS) as i64,
        status: GameStatus::Active,
        factions: [
            FactionState { score: 0, ..gs.factions[0] },
            FactionState { score: 0, ..gs.factions[1] },
            FactionState { score: 0, ..gs.factions[2] },
        ],
        ..gs
    }
}

/// Creates the game at genesis.
///
/// Fails with `ArithmeticOverflow`, exactly when the three-day window does
/// not fit the timestamp range.
pub fn initialize_game(admin: u64, now_ts: i64) -> (r: Result<GameState, ZolError>)
    ensures
        r is Ok <==> now_ts + EPOCH_DURATION_SECS <= i64::MAX,
        r matches Ok(gs) ==> gs == spec_initial_game_state(admin, now_ts),
        r matches Ok(gs) ==> gs.wf() && gs.tvl_consistent(),
        r is Err ==> r == Err::<GameState, ZolError>(ZolError::ArithmeticOverflow),
{
    let epoch_end_ts = match now_ts.checked_add(EPOCH_DURATION_SECS) {
        Some(v) => v,
        None => {
            return Err(ZolError::ArithmeticOverflow);
        },
    };
    Ok(
        GameState {
            admin,
            epoch_number: 1,
            epoch_start_ts: now_ts,
            epoch_end_ts,
            total_tvl: 0,
            factions: [
                FactionState { id: 0, tvl: 0, score: 0 },
                FactionState { id: 1, tvl: 0, score: 0 },
                FactionState { id: 2, tvl: 0, score: 0 },
            ],
            status: GameStatus::Active,
        },
    )
}

/// Closes the current epoch: moves the game into settlement and recomputes
/// every faction's score from the current deposit shares.  With no deposits
/// at all the prior scores are left standing.
///
/// No time guard is enforced here: closing before `epoch_end_ts` is a
/// documented, deliberately permissive admin override in this core.
pub fn resolve_epoch(gs: &mut GameState)
    requires
        old(gs).wf(),
        old(gs).tvl_consistent(),
    ensures
        *final(gs) == spec_closed_epoch(*old(gs)),
        final(gs).status == GameStatus::Settlement,
{
    gs.status = GameStatus::Settlement;
    let total = gs.total_tvl;
    if total == 0 {
        return;
    }
    let tvl_0 = gs.factions[0].tvl;
    let tvl_1 = gs.factions[1].tvl;
    let tvl_2 = gs.factions[2].tvl;
    let score_0 = faction_score(tvl_2, tvl_1, total);
    let score_1 = faction_score(tvl_0, tvl_2, total);
    let score_2 = faction_score(tvl_1, tvl_0, total);
    let mut faction = gs.factions[0];
    faction.score = score_0;
    gs.factions[0] = faction;
    faction = gs.factions[1];
    faction.score = score_1;
    gs.factions[1] = faction;
    faction = gs.factions[2];
    faction.score = score_2;
    gs.factions[2] = faction;
    proof {
        assert(gs.factions =~= spec_closed_epoch(*old(gs)).factions);
    }
}

/// After closing an epoch on a consistent state, the three stored scores
/// cancel to within the truncation error bound, which is strictly below the
/// number of factions; with nothing deposited nothing is recomputed.
pub proof fn lemma_closed_epoch_scores_zero_sum(gs: GameState)
    requires
        gs.wf(),
        gs.tvl_consistent(),
        gs.total_tvl > 0,
    ensures
        -3 < spec_closed_epoch(gs).scores_sum() < 3,
{
    let total = gs.total_tvl;
    crate::scoring::lemma_scores_zero_sum(
        gs.factions[0].tvl,
        gs.factions[1].tvl,
        gs.factions[2].tvl,
        total,
    );
    lemma_score_bounds(gs.factions[2].tvl, gs.factions[1].tvl, total);
    lemma_score_bounds(gs.factions[0].tvl, gs.factions[2].tvl, total);
    lemma_score_bounds(gs.factions[1].tvl, gs.factions[0].tvl, total);
}

/// Opens the next epoch.
///
/// Fails with `ArithmeticOverflow`, changing nothing, exactly when the epoch
/// counter or the three-day window would leave its numeric range.
pub fn start_new_epoch(gs: &mut GameState, now_ts: i64) -> (r: Result<(), ZolError>)
    ensures
        r is Ok <==> old(gs).epoch_number + 1 <= u64::MAX && now_ts + EPOCH_DURATION_SECS
            <= i64::MAX,
        r is Ok ==> *final(gs) == spec_opened_epoch(*old(gs), now_ts),
        r is Err ==> *final(gs) == *old(gs) && r == Err::<(), ZolError>(
            ZolError::ArithmeticOverflow,
        ),
{
    let new_epoch_number = match gs.epoch_number.checked_add(1) {
        Some(v) => v,
        None => {
            return Err(ZolError::ArithmeticOverflow);
        },
    };
    let epoch_end_ts = match now_ts.checked_add(EPOCH_DURATION_SECS) {
        Some(v) => v,
        None => {
            return Err(ZolError::ArithmeticOverflow);
        },
    };
    gs.epoch_number = new_epoch_number;
    gs.epoch_start_ts = now_ts;
    gs.epoch_end_ts = epoch_end_ts;
    gs.status = GameStatus::Active;
    let mut faction = gs.factions[0];
    faction.score = 0;
    gs.factions[0] = faction;
    faction = gs.factions[1];
    faction.score = 0;
    gs.factions[1] = faction;
    faction = gs.factions[2];
    faction.score = 0;
    gs.factions[2] = faction;
    proof {
        assert(gs.factions =~= spec_opened_epoch(*old(gs), now_ts).factions);
    }
    Ok(())
}

/// Epoch reset law: opening an epoch zeroes all three scores, advances the
/// epoch counter by exactly one, and leaves every faction's deposit total,
/// the global total, and the administrator untouched.
pub proof fn lemma_epoch_reset(gs: GameState, now_ts: i64)
    requires
        gs.epoch_number < u64::MAX,
    ensures
        spec_opened_epoch(gs, now_ts).epoch_number == gs.epoch_number + 1,
        spec_opened_epoch(gs, now_ts).scores_sum() == 0,
        forall|i: int|
            0 <= i < 3 ==> (#[trigger] spec_opened_epoch(gs, now_ts).factions[i]).score == 0,
        forall|i: int|
            0 <= i < 3 ==> (#[trigger] spec_opened_epoch(gs, now_ts).factions[i]).tvl
                == gs.factions[i].tvl,
        spec_opened_epoch(gs, now_ts).total_tvl == gs.total_tvl,
        spec_opened_epoch(gs, now_ts).admin == gs.admin,
{
}

} // verus!
