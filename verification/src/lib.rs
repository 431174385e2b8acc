//! A polling connector that turns the transaction feed of a Sui full node into
//! a stream of typed events.
//!
//! The source decides; its driver acts. Each operation that needs the
//! gateway comes in two halves: a plan that says what to ask of the gateway,
//! and a completion that takes what the gateway answered. Between the two
//! the driver connects, or waits and fetches. The source itself never
//! touches the network or the clock, except to stamp a record.

pub mod error;
pub mod event;
pub mod laws;
pub mod model;
pub mod record;
pub mod source;
pub mod transaction;
pub mod translate;
pub mod values;

pub use event::SuiEvent;
pub use source::{InitPlan, PollPlan, SuiSource};
pub use transaction::{RawPayload, RawTransaction};
pub use translate::transaction_to_event;
