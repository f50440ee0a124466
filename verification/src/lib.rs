//! Vanity address search: derive keypairs from random seeds until the
//! hexadecimal form of the derived address satisfies a pattern.
//!
//! - [`seed`]: which byte strings are secret keys of the curve.
//! - [`account`]: a keypair with its address, and the factory that derives
//!   one from a seed.
//! - [`matcher`]: a pattern, compiled once and tested against address text.
//! - [`entropy`]: the private stream of random seeds of one worker.
//! - [`state`]: the state that the workers of a search share, the rules by
//!   which it changes, and what holds of every sequence of changes.
//! - [`search`]: the shared state behind a lock, and the loop of a worker.
//! - [`stats`]: the figures of a finished search and the lines that report
//!   them.
//! - [`hex`], [`text`]: bytes and numbers as text.

pub mod account;
pub mod entropy;
pub mod hex;
pub mod matcher;
pub mod search;
pub mod seed;
pub mod state;
pub mod stats;
pub mod text;

pub use crate::search::try_generate_wallet;
