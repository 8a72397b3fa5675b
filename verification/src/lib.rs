//! A hash-linked chain of block headers, and a small state machine for the
//! life cycle of clothes.
//!
//! Every function is verified against a contract stated over the spec
//! functions that live beside it.

pub mod chain_builders;
pub mod chain_laws;
pub mod digest;
pub mod header_chain;
pub mod laundry_machine;
pub mod state_machine;

pub use chain_builders::{build_an_invalid_chain, build_valid_chain_length_5};
pub use digest::hash;
pub use header_chain::Header;
pub use laundry_machine::{ClothesAction, ClothesMachine, ClothesState};
pub use state_machine::StateMachine;
