//! A verified state-transition module for a ledger of unique digital
//! collectibles ("kitties"): identifier allocation, pseudo-genetic trait
//! crossover, ownership and parentage bookkeeping, and a reservation-backed
//! marketplace.
//!
//! The whole persisted state lives in an explicit [`pallet::Pallet`] value;
//! each public operation is a handler with a contract that pins down exactly
//! when it succeeds, which error it returns otherwise, and how every part of
//! the state changes. The host environment supplies caller identity and the
//! 16 bytes of unpredictable seed material that creation and breeding consume.

pub mod errors;
pub mod escrow;
pub mod kitty;
pub mod pallet;
pub mod storage_map;

pub use errors::Error;
pub use escrow::AccountId;
pub use escrow::Escrow;
pub use kitty::Kitty;
pub use kitty::KittyId;
pub use pallet::Event;
pub use pallet::Pallet;
