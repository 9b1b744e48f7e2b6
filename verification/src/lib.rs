//! A verified collectible-item registry and marketplace state machine.
//!
//! The library keeps a registry of uniquely identified items ("kitties"),
//! each with an immutable 16-byte genome and an optional sale price, an
//! ownership index, and a currency ledger with free and reserved
//! balances. Five operations drive the state machine: create, transfer,
//! breed, sell (list for sale), and buy. Every operation either fully
//! succeeds and reports an event, or fails with a named error and leaves
//! the whole state untouched.

pub mod ledger;
pub mod pallet;
pub mod randomness;
pub mod types;

pub use pallet::Pallet;
pub use types::Config;
pub use types::Error;
pub use types::Event;
pub use types::Kitty;
