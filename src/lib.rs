//! A registry that binds a human-readable name to an account and holds a
//! refundable deposit in reserve while the name is held.
//!
//! The state machine lives in [`pallet`]; the balance ledger it moves funds on
//! is the [`currency::ReservableCurrency`] interface, with an in-memory
//! implementation in [`currency::Balances`].

pub mod types;
pub mod currency;
pub mod pallet;
pub mod laws;

pub use types::{
    AccountData, AccountId, AccountLookup, Balance, Config, DispatchError, DispatchResult, Error,
    Event, Origin,
};
pub use currency::{Balances, ReservableCurrency};
pub use pallet::{NameRecord, Pallet};
