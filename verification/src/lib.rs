//! Deterministic generation of synthetic geographic coordinate pairs.
//!
//! The crate validates run parameters, lays out the draw order of a
//! seeded random source, assigns a sampling region to every pair
//! (the full globe, or one of sixteen random cluster rectangles taken
//! round-robin), and encodes the resulting distance ledger: one 64-bit
//! little-endian value per pair followed by a single trailing mean.
//! Coordinates and distances are carried as the bit patterns of 64-bit
//! IEEE-754 values, so that every structural step is verified; the
//! floating-point sampling and distance arithmetic themselves live with
//! the caller.

pub mod params;
pub mod region;
pub mod ledger;
pub mod generate;
