//! Guest-memory addressing and Canonical ABI allocation for WebAssembly guest modules.

pub mod error;
pub mod layout;
pub mod memory;
pub mod mock;
pub mod pointer;
pub mod runtime;
