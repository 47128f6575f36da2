//! The tunable constants of the simulation.
//!
//! Lengths and speeds are whole world units (speeds are units per second);
//! durations are milliseconds; the upgrade multipliers are percentages,
//! `100` meaning unchanged.

use vstd::prelude::*;

verus! {

/// Fixed-point scale of direction vectors: a component of `DIR_SCALE`
/// stands for 1.0.
pub const DIR_SCALE: i64 = 1000;

/// Coordinates are kept in `[-POS_LIMIT, POS_LIMIT]`; movement clamps to
/// this box.
pub const POS_LIMIT: i64 = 1_000_000_000;

/// Largest time step a single tick may carry, in milliseconds.
pub const MAX_TICK_MS: u32 = 10_000;

/// Largest effective speed (units per second) the movement helpers accept.
pub const SPEED_LIMIT: i64 = 1_000_000_000_000;

/// Upgrade multipliers are capped at this many percent.
pub const MULTIPLIER_LIMIT: u32 = 1_000_000;

/// Delay between two spawn waves of chickens, in milliseconds.
pub const CHICKEN_SPAWN_DELTA_MS: u32 = 3_000;

/// Base speed of the player, units per second.
pub const PLAYER_SPEED: i64 = 100;

/// Radius within which the player can target and catch a chicken.
pub const PLAYER_CATCHING_RADIUS: i64 = 100;

/// Bound on the player's inventory.
pub const PLAYER_MAX_INVENTORY_SPACE: u32 = 5;

/// Starting value of the player's speed multiplier, in percent.
pub const PLAYER_DEFAULT_SPEED_MULTIPLIER: u32 = 100;

/// Starting value of the player's catching-radius multiplier, in percent.
pub const PLAYER_DEFAULT_CATCHING_RADIUS_MULTIPLIER: u32 = 100;

/// Percentage points one speed upgrade adds.
pub const PLAYER_LVLUP_SPEED: u32 = 10;

/// Percentage points one catching-radius upgrade adds.
pub const PLAYER_LVLUP_CATCHING_RADIUS: u32 = 10;

/// Price, in banked chickens, of one speed upgrade.
pub const PLAYER_LVLUP_SPEED_PRICE: u64 = 10;

/// Price, in banked chickens, of one catching-radius upgrade.
pub const PLAYER_LVLUP_CATCHING_RADIUS_PRICE: u64 = 10;

/// Speed of a werewolf, units per second.
pub const WEREWOLF_SPEED: i64 = 100;

/// Period of a werewolf's behaviour re-evaluation timer, in milliseconds.
pub const WEREWOLF_BEHAVIOUR_CHANGE_DELTA_MS: u32 = 2_000;

/// Period of a werewolf's catch-attempt timer, in milliseconds.
pub const WEREWOLF_CATCHING_TRY_DELTA_MS: u32 = 1_000;

/// Radius within which a werewolf catches a chicken.
pub const WEREWOLF_CATCHING_RADIUS: i64 = 100;

/// Bound on a werewolf's inventory.
pub const WEREWOLF_MAX_INVENTORY_SPACE: u32 = 5;

/// A werewolf counts as arrived at its corral within this distance.
pub const WEREWOLF_MIN_DISTANCE_TO_CORRAL: i64 = 10;

/// Radius of a base, for both catching sight of it and depositing.
pub const BASE_CATCHING_RADIUS: i64 = 100;

/// Speed of a calm chicken, units per second.
pub const CHICKEN_CALM_SPEED: i64 = 30;

/// Speed of a mad chicken, units per second.
pub const CHICKEN_MAD_SPEED: i64 = 75;

/// Side length of a chicken, used by the wall-deflection rule.
pub const CHICKEN_SIZE: i64 = 30;

/// Period of a chicken's behaviour re-evaluation timer, in milliseconds.
pub const CHICKEN_BEHAVIOUR_CHANGE_DELTA_MS: u32 = 5_000;

/// Walls of a corral along its horizontal sides.
pub const DEFAULT_CORRAL_LENGTH: usize = 8;

/// Walls of a corral along its vertical sides.
pub const DEFAULT_CORRAL_HEIGTH: usize = 8;

/// Side length of one corral wall segment.
pub const CORRAL_WALL_SIZE: i64 = 50;

/// Corral side counts are kept at or below this bound.
pub const CORRAL_SIDE_LIMIT: usize = 1_000;

/// Corral anchors keep this far inside the world box, leaving room for
/// their walls and spawn points.
pub const CORRAL_ANCHOR_LIMIT: i64 = 999_900_000;

/// How long an inventory-full popup stays alive, in milliseconds.
pub const POPUP_DURATION_MS: u32 = 1_000;

} // verus!
