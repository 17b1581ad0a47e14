//! Session configuration for a native llama.cpp inference runtime.
//!
//! The crate models the native context-parameter block as plain data and
//! proves that the ergonomic, strongly-typed session parameters translate
//! into that block field by field: right value, right code, right default.

pub mod host;
pub mod params;
pub mod pooling;
