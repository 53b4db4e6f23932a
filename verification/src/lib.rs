//! Ballistic table generation for fire-control sights.
//!
//! The crate holds the logic around a point-mass trajectory simulation:
//! shell-family dispatch, breakpoint-table lookup, the launch-angle sweep with
//! its range cut-off, the monotonicity guard on the emitted table, the text
//! rendering of the rows, and a memoisation layer keyed by the exact bit
//! patterns of the physics inputs. Around that stand the rules that turn the
//! descriptions of vehicles and weapon modules into projectile records, and the
//! reader and the writer of the data files that hold them.
//!
//! Real numbers enter and leave as IEEE-754 binary64 bit patterns (`u64`), so
//! that every comparison, rounding and rendering is stated and proved over
//! integers. The arithmetic of the simulation itself is the caller's.

use vstd::prelude::*;

pub mod batch;
pub mod cache;
pub mod data;
pub mod emit;
pub mod error;
pub mod family;
pub mod fixed;
pub mod format;
pub mod ieee;
pub mod json;
pub mod key;
pub mod lookup;
pub mod names;
pub mod record;
pub mod table;
pub mod tenths;
pub mod text;
pub mod vehicle;
pub mod weapon;

verus! {

/// Version of the table format produced by this crate.
pub const VERSION: &'static str = "0.1.0";

} // verus!
