//! A deterministic record engine for one contract instance.
//!
//! The instance keeps three records: a [`board::Board`] of 8×8 tiles with its
//! host, the single [`character::Character`] that moves and fights on it, and
//! a [`state::StudentAccreditation`] record edited by its admin.  Every
//! operation is a function from the records and a message to the records that
//! follow and a typed answer; loading and storing the records is left to the
//! caller.
//!
//! Every function is verified: the contracts say which answer is given on
//! which input and what becomes of the records, for all inputs, and no
//! function panics.

pub mod board;
pub mod character;
pub mod combat;
pub mod contract;
pub mod error;
pub mod geometry;
pub mod guard;
pub mod invariants;
pub mod movement;
pub mod msg;
pub mod queries;
pub mod state;
pub mod texts;
pub mod tile;
