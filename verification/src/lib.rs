//! A per-thread optional holder of one owned heap value, with explicit
//! initialise / read / destroy operations that never touch released storage.
//!
//! Presence is always checked: reading an absent slot is a reported error,
//! and the held value is released by ownership, once, when the slot lets go
//! of it. A slot whose thread has ended stays absent for good.

pub mod error;
pub mod host;
pub mod object;
pub mod slot;
pub mod state;
pub mod threads;
