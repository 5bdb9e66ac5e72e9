//! The decisions of a set of desktop status watchers, foremost the tracker
//! of the single active media player on a session message bus.
//!
//! For the player tracker the crate holds which bus name is tracked, how the
//! answers of the player are folded into the cached record, how the cached
//! position advances between answers, and how a record is framed for
//! output. For the power and network watchers it holds the reading of the
//! services' codes. Performing bus calls, locking, sleeping and writing are
//! left to the caller, which hands in plain values and acts on what comes
//! back.

pub mod names;
pub mod player;
pub mod handoff;
pub mod ticker;
pub mod emit;
pub mod laws;
pub mod power;
pub mod network;
