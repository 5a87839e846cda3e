//! Weighted loot tables of a game's dungeons: decoding the remotely hosted
//! description files, naming what each entry drops, and reporting every
//! entry's drop chance.
//!
//! Nothing in this crate performs I/O. The caller fetches a body and hands it
//! in; the functions here say, with proof, what follows from it.

pub mod envelope;
pub mod model;
pub mod names;
pub mod report;
pub mod text;
pub mod tier;

pub use model::{Loot, LootError, LootSpec, Weight};
