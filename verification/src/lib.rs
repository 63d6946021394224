//! Platform boundary of a keyboard remapper: the canonical key model, its
//! translation to and from native keys, and the decisions of the capture and
//! output paths.

pub mod capture;
pub mod keycodes;
pub mod keys;
pub mod keyset;
pub mod native;
pub mod oskbd;
pub mod relay;
pub mod translate;
