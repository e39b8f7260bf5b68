//! Registry names for the Stellar Registry and the pure decisions that the
//! registry tooling makes around them.

pub mod text;
pub mod common;
pub mod outside;
pub mod error;
pub mod prefixed;
pub mod version;
pub mod versioned;
pub mod strkey;
pub mod deployed;
pub mod wasm;
pub mod asset;
pub mod registry;
