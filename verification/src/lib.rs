//! A ledger of air quality sensors and civic contracts, each owned by one
//! authority, in which a write is paid for only when it changes something
//! that matters.
//!
//! The ledger reads no clock and stores nothing itself: every operation takes
//! the records it works on and the time `now`, and hands back the records as
//! they then stand, together with the events to announce.

pub mod account;
pub mod air_quality;
pub mod contract;
pub mod errors;
pub mod events;
pub mod instructions;
pub mod text;
pub mod utils;
