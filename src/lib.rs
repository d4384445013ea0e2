//! A buffer-echo program: callers write bytes into storage buffers whose
//! authority is proven by deterministic program-derived addresses.
pub mod address;
pub mod error;
pub mod header;
pub mod derivation;
pub mod instruction;
pub mod state;
pub mod processor;
