//! A membership registry for clubs inside a deterministic ledger.
//!
//! A club is an identifier and an ordered list of distinct accounts. The
//! registry creates clubs under fresh identifiers and lets an authenticated
//! account join or leave one. Every operation either succeeds, changes the
//! state and yields exactly one [`Event`], or fails with an [`Error`] and
//! leaves the state as it was.
//!
//! * [`origin`] says how a caller is identified.
//! * [`club`] is the club record.
//! * [`transition`] holds the rules on plain values: what one operation
//!   decides from the caller's identity and the record it touches.
//! * [`store`] is the mapping from club identifier to club record.
//! * [`pallet`] runs the rules against a store and allocates identifiers.
//! * [`registry`] is the state that the contracts speak of, with the three
//!   operations as functions from state to state and answer.
//! * [`laws`] states and proves what holds of every state and every call.
//!
//! No executable function of the public interface has a precondition:
//! clubs, stores and services keep their own invariants.
pub mod club;
pub mod error;
pub mod event;
pub mod laws;
pub mod origin;
pub mod pallet;
pub mod registry;
pub mod store;
pub mod transition;

pub use club::Club;
pub use error::Error;
pub use event::Event;
pub use origin::{AccountId, Origin};
pub use pallet::Pallet;
pub use store::ClubStore;
