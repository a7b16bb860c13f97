//! A verified registry for conditional escrow commitments.
//!
//! A creator locks funds for a recipient, contingent on submitting proof of an
//! obligation before a deadline. If proof arrives in time, finalization
//! refunds the creator; otherwise the commitment fails and, after a cooldown,
//! the recipient may claim the funds. The registry owns every commitment
//! record, allocates identifiers, and validates and executes every lifecycle
//! transition. Host capabilities (clock, caller identity, fund transfer,
//! event sink) enter as plain arguments and leave as returned effects, so the
//! whole state machine is verified here.

pub mod commitment;
pub mod digest;
pub mod effects;
pub mod errors;
pub mod laws;
pub mod registry;
pub mod transitions;
