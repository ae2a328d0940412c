//! Data model: the global game state, faction records, user positions,
//! automation configuration, inventories, and the error taxonomy.

use vstd::prelude::*;

verus! {

/// Fixed price of a sword in minor units.
pub const SWORD_PRICE: u64 = 10_000_000;

/// Fixed price of a shield in minor units.
pub const SHIELD_PRICE: u64 = 2_000_000;

/// Fixed price of a spyglass in minor units.
pub const SPYGLASS_PRICE: u64 = 5_000_000;

/// Flat insurance payout, in minor units, granted when a shield absorbs a
/// losing epoch.
pub const INSURANCE_PAYOUT: u64 = 2_000_000;

/// Length of one epoch in seconds (three days).
pub const EPOCH_DURATION_SECS: i64 = 259_200;

/// Faction scores are fixed-point values scaled by this factor.
pub const SCORE_SCALE: u64 = 10_000;

/// Item identifier for a sword (yield multiplier, never consumed).
pub const ITEM_SWORD: u8 = 1;

/// Item identifier for a shield (insurance, consumed on use).
pub const ITEM_SHIELD: u8 = 2;

/// Item identifier for a spyglass.
pub const ITEM_SPYGLASS: u8 = 3;

/// Global lifecycle status of the game.
#[derive(Clone, Copy, PartialEq, Eq, Structural, Debug)]
pub enum GameStatus {
    /// Deposits and withdrawals run; the epoch is open.
    Active,
    /// The epoch is closed and per-user settlement is in progress.
    Settlement,
    /// Reserved; no transition into this state exists in this core.
    Paused,
}

/// One faction's aggregate record.
#[derive(Clone, Copy, PartialEq, Eq, Structural, Debug)]
pub struct FactionState {
    /// Faction identifier, 0 through 2; fixed at genesis.
    pub id: u8,
    /// Sum of the deposits of this faction's members, in minor units.
    pub tvl: u64,
    /// Zero-sum score for the current epoch, scaled by `SCORE_SCALE`.
    pub score: i64,
}

/// The global singleton owned by the epoch lifecycle manager.
#[derive(Clone, Copy, PartialEq, Eq, Debug)]
pub struct GameState {
    /// Administrator identity; authorization itself is enforced by the
    /// surrounding runtime before any admin-only operation runs.
    pub admin: u64,
    /// Monotonically increasing epoch counter, starting at 1.
    pub epoch_number: u64,
    /// Timestamp at which the current epoch opened.
    pub epoch_start_ts: i64,
    /// Advisory timestamp at which the current epoch is meant to close.
    pub epoch_end_ts: i64,
    /// Sum of all user deposits, in minor units.
    pub total_tvl: u64,
    /// The three factions, indexed by their ids.
    pub factions: [FactionState; 3],
    /// Global lifecycle status.
    pub status: GameStatus,
}

/// One conditional automated purchase rule.
#[derive(Clone, Copy, PartialEq, Eq, Structural, Debug)]
pub struct AutomationRule {
    /// 0 = empty slot, 1 = sword, 2 = shield, 3 = spyglass; any other value
    /// prices at 0 and never triggers.
    pub item_id: u8,
    /// Minimum remaining yield required to even attempt this rule.
    pub threshold: u64,
}

/// Disposition of yield left over after both priority slots ran.
#[derive(Clone, Copy, PartialEq, Eq, Structural, Debug)]
pub enum FallbackAction {
    /// Add the remainder to the user's deposit (the default).
    AutoCompound,
    /// Pay the remainder out to the user's wallet.
    SendToWallet,
}

/// A user's automation configuration: two ordered priority slots and the
/// fallback disposition.
#[derive(Clone, Copy, PartialEq, Eq, Structural, Debug)]
pub struct AutomationSettings {
    pub priority_slot_1: AutomationRule,
    pub priority_slot_2: AutomationRule,
    pub fallback_action: FallbackAction,
}

/// Counts of items a user owns.
#[derive(Clone, Copy, PartialEq, Eq, Structural, Debug)]
pub struct UserInventory {
    /// Swords boost winning yield; never consumed.
    pub sword_count: u64,
    /// Shields insure losing epochs; consumed on use.
    pub shield_count: u64,
    /// Spyglasses have no settlement effect in this core.
    pub spyglass_count: u64,
}

/// One participant's record.
#[derive(Clone, Copy, PartialEq, Eq, Structural, Debug)]
pub struct UserPosition {
    /// Owner identity.
    pub owner: u64,
    /// Faction membership, 0 through 2; immutable after registration.
    pub faction_id: u8,
    /// The user's deposited balance, in minor units.
    pub deposited_amount: u64,
    /// Epoch number of the user's most recent deposit.
    pub last_deposit_epoch: u64,
    /// Automation configuration, applied at settlement time.
    pub automation_settings: AutomationSettings,
    /// Item inventory.
    pub inventory: UserInventory,
}

/// Legacy payout preference kept for callers that still speak it; the
/// settlement pipeline itself is driven by `AutomationSettings`.
#[derive(Clone, Copy, PartialEq, Eq, Structural, Debug)]
pub enum PayoutPreference {
    SendToWallet,
    AutoCompound,
    BuyItem,
}

/// Error taxonomy.  Every failing operation leaves all state exactly as it
/// was before the call.
#[derive(Clone, Copy, PartialEq, Eq, Structural, Debug)]
pub enum ZolError {
    /// Registration with a faction id outside 0 through 2.
    InvalidFaction,
    /// Withdrawal exceeding the user's deposited balance.
    InsufficientFunds,
    /// Reserved for a time guard on closing an epoch; the guard is a
    /// documented but disabled business rule in this core.
    EpochNotEnded,
    /// A checked arithmetic operation left the numeric range.
    ArithmeticOverflow,
}

impl Default for AutomationRule {
    /// The empty slot: no item, zero threshold.
    fn default() -> (r: Self)
        ensures
            r == (AutomationRule { item_id: 0, threshold: 0 }),
    {
        AutomationRule { item_id: 0, threshold: 0 }
    }
}

impl Default for FallbackAction {
    /// Compounding is the default disposition.
    fn default() -> (r: Self)
        ensures
            r == FallbackAction::AutoCompound,
    {
        FallbackAction::AutoCompound
    }
}

impl Default for AutomationSettings {
    /// Both slots empty, fallback set to compounding.
    fn default() -> (r: Self)
        ensures
            r == AutomationSettings::spec_default(),
    {
        AutomationSettings {
            priority_slot_1: AutomationRule { item_id: 0, threshold: 0 },
            priority_slot_2: AutomationRule { item_id: 0, threshold: 0 },
            fallback_action: FallbackAction::AutoCompound,
        }
    }
}

impl Default for UserInventory {
    /// The empty inventory.
    fn default() -> (r: Self)
        ensures
            r == UserInventory::spec_empty(),
    {
        UserInventory { sword_count: 0, shield_count: 0, spyglass_count: 0 }
    }
}

impl AutomationSettings {
    /// The configuration every user starts with.
    pub open spec fn spec_default() -> AutomationSettings {
        AutomationSettings {
            priority_slot_1: AutomationRule { item_id: 0, threshold: 0 },
            priority_slot_2: AutomationRule { item_id: 0, threshold: 0 },
            fallback_action: FallbackAction::AutoCompound,
        }
    }
}

impl UserInventory {
    /// The empty inventory.
    pub open spec fn spec_empty() -> UserInventory {
        UserInventory { sword_count: 0, shield_count: 0, spyglass_count: 0 }
    }
}

impl UserPosition {
    /// A position is well formed when its faction id addresses one of the
    /// three factions.
    pub open spec fn wf(&self) -> bool {
        self.faction_id < 3
    }
}

impl FactionState {
    /// Display name of the faction, derived from its id.
    pub fn name(&self) -> (s: String)
        ensures
            self.id == 0 ==> s@ == "Vanguard"@,
            self.id == 1 ==> s@ == "Mage"@,
            self.id == 2 ==> s@ == "Assassin"@,
    {
        if self.id == 0 {
            "Vanguard".to_string()
        } else if self.id == 1 {
            "Mage".to_string()
        } else if self.id == 2 {
            "Assassin".to_string()
        } else {
            "".to_string()
        }
    }
}

impl GameState {
    /// The faction array is indexed by faction id.
    pub open spec fn wf(&self) -> bool {
        forall|i: int| 0 <= i < 3 ==> (#[trigger] self.factions[i]).id == i
    }

    /// Sum of the three per-faction deposit totals.
    pub open spec fn factions_tvl_sum(&self) -> int {
        self.factions[0].tvl + self.factions[1].tvl + self.factions[2].tvl
    }

    /// The global total matches the per-faction totals; part of the
    /// conservation invariant.
    pub open spec fn tvl_consistent(&self) -> bool {
        self.total_tvl == self.factions_tvl_sum()
    }

    /// Sum of the three faction scores for the current epoch.
    pub open spec fn scores_sum(&self) -> int {
        self.factions[0].score + self.factions[1].score + self.factions[2].score
    }
}

/// Price of an item, in minor units; unknown ids price at 0 and can never
/// be bought.
pub open spec fn spec_item_price(item_id: u8) -> u64 {
    if item_id == ITEM_SWORD {
        SWORD_PRICE
    } else if item_id == ITEM_SHIELD {
        SHIELD_PRICE
    } else if item_id == ITEM_SPYGLASS {
        SPYGLASS_PRICE
    } else {
        0
    }
}

/// Fixed item price table.
pub fn item_price(item_id: u8) -> (price: u64)
    ensures
        price == spec_item_price(item_id),
{
    if item_id == ITEM_SWORD {
        SWORD_PRICE
    } else if item_id == ITEM_SHIELD {
        SHIELD_PRICE
    } else if item_id == ITEM_SPYGLASS {
        SPYGLASS_PRICE
    } else {
        0
    }
}

} // verus!
