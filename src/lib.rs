//! Sample-accurate signal rendering: the verified decision logic.
//!
//! The library resolves generator and envelope names to closed enums, picks
//! the branch of piecewise envelopes exactly on integer sample positions,
//! checks the output format, clips composed sample codes to the symmetric
//! code range of a bit depth, and names the output file.

pub mod dispatch;
pub mod error;
pub mod naming;
pub mod render;
pub mod shape;
