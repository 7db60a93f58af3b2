//! A life-path character generator: composable dice expressions with exact
//! result/range/rendering semantics, a mutation backend over the character
//! record, a suspension protocol that pauses generation at external decision
//! points, and the affiliation/rank/career resolution state machine.

pub mod backend;
pub mod birth;
pub mod careers;
pub mod character;
pub mod dice;
pub mod event;
pub mod ipc;
pub mod lifepath;
pub mod locations;
pub mod perks;
pub mod scenarios;
pub mod stages;
pub mod text;

pub use backend::BaseBackend;
pub use character::{BirthOmen, Character, Stat};
