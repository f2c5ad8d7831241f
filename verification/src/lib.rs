//! Weapon identity and generation engine for a tabletop companion tool.
//!
//! The engine assembles a weapon from four interchangeable part slots under
//! level-gated rarity rules, packs the full configuration into a compact
//! parity-checked identifier that can be exchanged as a hex string, and
//! rebuilds the weapon from such an identifier and the part catalog alone.

use vstd::prelude::*;

pub mod catalog;
pub mod curve;
pub mod id;
pub mod rarity;
pub mod state;
pub mod text;
pub mod weapon;

verus! {

/// Highest level the generation path is defined for; the damage curve maps
/// the range `0..=LEVEL_MAX` onto the normalized curve domain.
pub const LEVEL_MAX: u8 = 32;

} // verus!
