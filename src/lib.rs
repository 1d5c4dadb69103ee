//! A runtime ledger module: account balances that add up to the total supply, a
//! one-shot initialisation, an authority-guarded value, a bounded price list
//! fed by unsigned submissions, and a nonce-driven guessing game.
//!
//! The module keeps its whole state in one value of type [`Pallet`]. Every
//! operation validates before it writes: on failure the state is left exactly
//! as it was and no event is recorded.

pub mod balances;
pub mod laws;
pub mod pallet;
pub mod price_list;
pub mod state;
pub mod types;
pub mod weights;

pub use pallet::{Pallet, Randomness};
pub use price_list::MAX_PRICES;
pub use state::PalletState;
pub use types::{
    AccountId, Call, Error, Event, Hash256, InvalidTransaction, Origin, ValidTransaction,
    DEFAULT_TOTAL_SUPPLY,
};
pub use weights::MyWeightFunction;
