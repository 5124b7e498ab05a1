//! Verified core of a boundary layer that hands database handles and
//! tagged JSON commands across a C ABI.

pub mod bridge;
pub mod buffer;
pub mod engine;
pub mod envelope;
pub mod handle;
pub mod text;
