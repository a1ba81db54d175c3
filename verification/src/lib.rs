//! A custody pool that takes deposits of a base token and issues receipt
//! tokens one for one.
//!
//! The pool of a base token is a vault, which holds the deposits, and a
//! receipt mint, whose supply is what the vault owes. Both live at addresses
//! derived from the base token, and only the program can act for them.

pub mod address;
pub mod derivation;
pub mod error;
pub mod laws;
pub mod pool;
pub mod token;

pub use address::Address;
pub use derivation::Role;
pub use error::{HostError, StakeError};
pub use pool::{initialize, stake, unstake, Context, Initialize, SignerSeeds, StakeUnstake};
pub use token::{Mint, TokenAccount};
