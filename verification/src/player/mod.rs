//! The player: input, stats, weapon, reload and inventory.

pub mod input;
pub mod inventory;
pub mod reload;
pub mod roll;
pub mod setup;
pub mod stats;
pub mod weapon;
