//! Flips the per-user light/dark appearance preference.
//!
//! The decisions (how a stored flag decodes to a theme, which value is
//! written back, when the optional system flag is mirrored) are verified
//! here against an in-memory model of the preference section.

pub mod store;
pub mod theme;
