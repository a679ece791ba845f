//! Proof of Play: the state transition that turns one timed-interaction
//! claim into one unit of the time token, or into a typed rejection.

pub mod guarantees;
pub mod handler;
pub mod types;

pub use handler::{Host, HostState, Pallet};
pub use types::{Balance, Config, Error, Event, PlaySession, MIN_ENTROPY, TT_PER_PLAY};
