//! Conservation: the global total equals the sum of the faction totals,
//! which in turn equal the sums of their members' deposits, after every
//! committed deposit, withdrawal, or settlement — and a rejected operation
//! changes nothing at all.

use vstd::prelude::*;

use crate::position::{spec_deposit, spec_deposit_ok, spec_withdraw, spec_withdraw_ok};
use crate::settlement::{lemma_settlement_aggregates, spec_settlement};
use crate::state::{GameState, UserPosition};

verus! {

/// One operation in a history of the game, addressing a user by index.
pub enum LedgerOp {
    Deposit { user: usize, amount: u64 },
    Withdraw { user: usize, amount: u64 },
    Settle { user: usize, yield_amount: u64 },
}

/// Every tracked position addresses one of the three factions.
pub open spec fn users_wf(users: Seq<UserPosition>) -> bool {
    forall|i: int| 0 <= i < users.len() ==> (#[trigger] users[i]).wf()
}

/// Sum of the deposits of the members of faction `fid`.
pub open spec fn spec_faction_deposits(users: Seq<UserPosition>, fid: int) -> int
    decreases users.len(),
{
    if users.len() == 0 {
        0
    } else {
        spec_faction_deposits(users.drop_last(), fid) + if users.last().faction_id as int == fid {
            users.last().deposited_amount as int
        } else {
            0
        }
    }
}

/// Sum of all users' deposits.
pub open spec fn spec_total_deposits(users: Seq<UserPosition>) -> int
    decreases users.len(),
{
    if users.len() == 0 {
        0
    } else {
        spec_total_deposits(users.drop_last()) + users.last().deposited_amount
    }
}

/// The conservation invariant over the whole world: the global total equals
/// the sum of the faction totals, and each faction's total equals the sum of
/// its members' deposits.
pub open spec fn conserved(gs: GameState, users: Seq<UserPosition>) -> bool {
    &&& gs.wf()
    &&& users_wf(users)
    &&& gs.total_tvl == gs.factions_tvl_sum()
    &&& forall|fid: int|
        0 <= fid < 3 ==> gs.factions[fid].tvl == #[trigger] spec_faction_deposits(users, fid)
}

/// Effect of one operation on the world.  An operation that does not commit
/// (an out-of-range user, a failing precondition, an arithmetic overflow)
/// leaves the world exactly as it was.
pub open spec fn spec_apply_op(gs: GameState, users: Seq<UserPosition>, op: LedgerOp) -> (
    GameState,
    Seq<UserPosition>,
) {
    match op {
        LedgerOp::Deposit { user, amount } => {
            if user < users.len() && spec_deposit_ok(gs, users[user as int], amount) {
                let (gs2, u2) = spec_deposit(gs, users[user as int], amount);
                (gs2, users.update(user as int, u2))
            } else {
                (gs, users)
            }
        },
        LedgerOp::Withdraw { user, amount } => {
            if user < users.len() && spec_withdraw_ok(gs, users[user as int], amount) {
                let (gs2, u2) = spec_withdraw(gs, users[user as int], amount);
                (gs2, users.update(user as int, u2))
            } else {
                (gs, users)
            }
        },
        LedgerOp::Settle { user, yield_amount } => {
            if user < users.len() {
                match spec_settlement(gs, users[user as int], yield_amount) {
                    Ok((gs2, u2, owed)) => (gs2, users.update(user as int, u2)),
                    Err(e) => (gs, users),
                }
            } else {
                (gs, users)
            }
        },
    }
}

/// Effect of a whole history of operations, oldest first.
pub open spec fn spec_apply_history(
    gs: GameState,
    users: Seq<UserPosition>,
    ops: Seq<LedgerOp>,
) -> (GameState, Seq<UserPosition>)
    decreases ops.len(),
{
    if ops.len() == 0 {
        (gs, users)
    } else {
        let (gs1, users1) = spec_apply_op(gs, users, ops[0]);
        spec_apply_history(gs1, users1, ops.drop_first())
    }
}

/// Replacing one position changes a faction's deposit sum by exactly that
/// member's contribution difference.
pub proof fn lemma_faction_deposits_update(
    users: Seq<UserPosition>,
    i: int,
    u2: UserPosition,
    fid: int,
)
    requires
        0 <= i < users.len(),
    ensures
        spec_faction_deposits(users.update(i, u2), fid) == spec_faction_deposits(users, fid) - (
        if users[i].faction_id as int == fid {
            users[i].deposited_amount as int
        } else {
            0
        }) + (
        if u2.faction_id as int == fid {
            u2.deposited_amount as int
        } else {
            0
        }),
    decreases users.len(),
{
    let updated = users.update(i, u2);
    if i == users.len() - 1 {
        assert(updated.drop_last() =~= users.drop_last());
        assert(updated.last() == u2);
    } else {
        assert(updated.drop_last() =~= users.drop_last().update(i, u2));
        assert(updated.last() == users.last());
        lemma_faction_deposits_update(users.drop_last(), i, u2, fid);
    }
}

/// With every member in one of the three factions, the total of all
/// deposits splits exactly into the three faction sums.
pub proof fn lemma_total_deposits_split(users: Seq<UserPosition>)
    requires
        users_wf(users),
    ensures
        spec_total_deposits(users) == spec_faction_deposits(users, 0) + spec_faction_deposits(
            users,
            1,
        ) + spec_faction_deposits(users, 2),
    decreases users.len(),
{
    if users.len() > 0 {
        assert(users.drop_last().len() == users.len() - 1);
        assert(users_wf(users.drop_last())) by {
            assert(forall|i: int|
                0 <= i < users.len() - 1 ==> users.drop_last()[i] == users[i]);
        }
        lemma_total_deposits_split(users.drop_last());
        assert(users.last().wf());
    }
}

/// One operation, committed or rejected, preserves conservation.
pub proof fn lemma_op_preserves_conservation(
    gs: GameState,
    users: Seq<UserPosition>,
    op: LedgerOp,
)
    requires
        conserved(gs, users),
    ensures
        conserved(spec_apply_op(gs, users, op).0, spec_apply_op(gs, users, op).1),
{
    let (gs2, users2) = spec_apply_op(gs, users, op);
    match op {
        LedgerOp::Deposit { user, amount } => {
            if user < users.len() && spec_deposit_ok(gs, users[user as int], amount) {
                let u = users[user as int];
                let u2 = spec_deposit(gs, u, amount).1;
                assert forall|fid: int| 0 <= fid < 3 implies gs2.factions[fid].tvl
                    == #[trigger] spec_faction_deposits(users2, fid) by {
                    lemma_faction_deposits_update(users, user as int, u2, fid);
                }
            }
        },
        LedgerOp::Withdraw { user, amount } => {
            if user < users.len() && spec_withdraw_ok(gs, users[user as int], amount) {
                let u = users[user as int];
                let u2 = spec_withdraw(gs, u, amount).1;
                assert forall|fid: int| 0 <= fid < 3 implies gs2.factions[fid].tvl
                    == #[trigger] spec_faction_deposits(users2, fid) by {
                    lemma_faction_deposits_update(users, user as int, u2, fid);
                }
            }
        },
        LedgerOp::Settle { user, yield_amount } => {
            if user < users.len() {
                let u = users[user as int];
                match spec_settlement(gs, u, yield_amount) {
                    Ok((sgs, u2, owed)) => {
                        lemma_settlement_aggregates(gs, u, yield_amount);
                        assert forall|fid: int| 0 <= fid < 3 implies gs2.factions[fid].tvl
                            == #[trigger] spec_faction_deposits(users2, fid) by {
                            lemma_faction_deposits_update(users, user as int, u2, fid);
                        }
                    },
                    Err(e) => {},
                }
            }
        },
    }
}

/// Conservation law: for every starting world satisfying the invariant and
/// every history of deposits, withdrawals, and settlements, the invariant
/// holds again after the whole history — each operation either commits and
/// preserves it or is rejected and changes nothing.
pub proof fn lemma_history_preserves_conservation(
    gs: GameState,
    users: Seq<UserPosition>,
    ops: Seq<LedgerOp>,
)
    requires
        conserved(gs, users),
    ensures
        conserved(
            spec_apply_history(gs, users, ops).0,
            spec_apply_history(gs, users, ops).1,
        ),
    decreases ops.len(),
{
    if ops.len() > 0 {
        lemma_op_preserves_conservation(gs, users, ops[0]);
        let (gs1, users1) = spec_apply_op(gs, users, ops[0]);
        lemma_history_preserves_conservation(gs1, users1, ops.drop_first());
    }
}

/// A faction's deposit sum is never negative.
pub proof fn lemma_faction_deposits_nonneg(users: Seq<UserPosition>, fid: int)
    ensures
        spec_faction_deposits(users, fid) >= 0,
    decreases users.len(),
{
    if users.len() > 0 {
        lemma_faction_deposits_nonneg(users.drop_last(), fid);
    }
}

/// Each member's deposit is bounded by its own faction's deposit sum.
pub proof fn lemma_member_deposit_le_faction_sum(users: Seq<UserPosition>, i: int)
    requires
        0 <= i < users.len(),
    ensures
        users[i].deposited_amount <= spec_faction_deposits(users, users[i].faction_id as int),
    decreases users.len(),
{
    if i == users.len() - 1 {
        lemma_faction_deposits_nonneg(users.drop_last(), users[i].faction_id as int);
    } else {
        assert(users.drop_last()[i] == users[i]);
        lemma_member_deposit_le_faction_sum(users.drop_last(), i);
    }
}

/// In a conserved world a withdrawal within the user's balance always
/// commits: the faction total and the global total can never underflow, so
/// the only error a withdrawal can raise is `InsufficientFunds`.
pub proof fn lemma_conserved_withdraw_always_commits(
    gs: GameState,
    users: Seq<UserPosition>,
    i: int,
    amount: u64,
)
    requires
        conserved(gs, users),
        0 <= i < users.len(),
        amount <= users[i].deposited_amount,
    ensures
        spec_withdraw_ok(gs, users[i], amount),
{
    lemma_member_deposit_le_faction_sum(users, i);
}

/// In any conserved world the global total also equals the sum of all
/// users' deposits, completing the three-level equality.
pub proof fn lemma_conserved_total_matches_users(gs: GameState, users: Seq<UserPosition>)
    requires
        conserved(gs, users),
    ensures
        gs.total_tvl == spec_total_deposits(users),
        gs.total_tvl == gs.factions_tvl_sum(),
{
    lemma_total_deposits_split(users);
}

} // verus!
