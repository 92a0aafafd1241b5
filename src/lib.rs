//! Resolution of thrust requests into bounded accelerations.
//!
//! Every scalar handled here is the IEEE-754 binary32 encoding of an `f32`
//! (what `f32::to_bits` gives), so that the decisions of the resolvers
//! (which magnitudes are usable, which candidate binds) are exact and
//! checked, while the arithmetic on the values stays with the caller.
pub mod binary32;
pub mod components;
pub mod resolver;
