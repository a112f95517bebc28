//! Register state per architecture.

pub mod aarch64;
