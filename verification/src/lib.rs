//! A stack unwinder for AArch64: the two-phase unwind protocol of the Itanium C++ ABI,
//! the frame tables that it walks by, and the personality routine of Rust.
//!
//! The crate decides and computes. It reads no memory, calls no callback and loads no
//! register: what it needs of these it asks for, and is told.

pub mod abi;
pub mod arch;
pub mod encoding;
pub mod error;
pub mod features;
pub mod lsda_laws;
pub mod memory;
pub mod panicking;
pub mod personality;
pub mod personality_laws;
pub mod reader;
pub mod unwinder;
pub mod util;
