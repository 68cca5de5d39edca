//! Admission control for unsigned bridge transactions.
//!
//! Given a proposed call, where it came from, and a frozen snapshot of the
//! chain state, admission control decides whether the call may enter the transaction
//! pool and, if so, with which pool metadata. Hashing, signer recovery and
//! request parsing are supplied by the caller through the traits of
//! [`chain`]; every verdict is stated for whatever those collaborators answer.
pub mod admission;
pub mod bytes;
pub mod chain;
pub mod laws;
pub mod rules;
pub mod snapshot;
pub mod types;

pub use admission::validate_unsigned;
pub use types::ValidationError;
