//! Reference data for market instruments: tradable-instrument price series
//! ("tickers"), individual price observations ("quotes"), and
//! foreign-exchange rates derived from stored quotes.
//!
//! The two pieces with non-trivial invariants live here with full
//! contracts: the identity lifecycle shared by every persisted entity
//! ([`data_item::DataItem`]) and the currency-conversion algorithm that
//! resolves an FX rate from historical quote data ([`converter::fx_rate`]).

pub mod converter;
pub mod currency;
pub mod data_item;
pub mod error;
pub mod lookup;
pub mod quote;
pub mod rational;
