//! A review store whose records live at addresses derived from their owner and keys.
//!
//! Records are laid out byte for byte in the slots that the host hands to an
//! invocation; every slot that an operation touches is checked against an address
//! recomputed from its seeds.
pub mod address;
pub mod codec;
pub mod error;
pub mod instruction;
pub mod laws;
pub mod processor;
pub mod state;
