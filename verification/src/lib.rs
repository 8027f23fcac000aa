//! Randomised, self-consistent fixtures for a voting administration service:
//! funds, the proposals competing in them, the vote plans that back both, and
//! API tokens, gathered in a [`Snapshot`].
//!
//! Every rule that ties the generated entities together is stated as a contract
//! and proved. Chance, the clock, the vocabulary of the made-up texts and the
//! base64 alphabet come from other crates, behind the trusted functions of
//! `entropy`, `clock`, `fakers` and `encoding`; `text` trusts two functions of
//! the standard library.

pub mod arbitrary;
pub mod clock;
pub mod coherence;
pub mod encoding;
pub mod entropy;
pub mod factories;
pub mod fakers;
pub mod models;
pub mod snapshot;
pub mod text;
pub mod token_pool;
pub mod windows;

pub use arbitrary::ArbitraryGenerator;
pub use snapshot::Snapshot;
