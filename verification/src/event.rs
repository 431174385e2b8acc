//! The event that the connector hands to the pipeline.

use vstd::prelude::*;

use crate::values::{number_of, text_of};

verus! {

/// One ledger transaction in the shape the pipeline consumes.
#[derive(Clone, Debug)]
pub struct SuiEvent {
    /// Unique identifier of the transaction on the ledger.
    pub transaction_id: String,
    /// Name of the operation the transaction performs.
    pub transaction_kind: String,
    /// Milliseconds since the epoch; zero when the ledger reports none.
    pub timestamp: u64,
    /// Address of the sender.
    pub sender: String,
    /// Address of the recipient, where one is known.
    pub recipient: Option<String>,
    /// Amount moved, where one is known.
    pub amount: Option<u64>,
    /// Rendering of the transaction's payload, kept for inspection.
    pub metadata: String,
}

/// The mathematical content of a [`SuiEvent`].
pub struct EventView {
    pub transaction_id: Seq<char>,
    pub transaction_kind: Seq<char>,
    pub timestamp: nat,
    pub sender: Seq<char>,
    pub recipient: Option<Seq<char>>,
    pub amount: Option<nat>,
    pub metadata: Seq<char>,
}

impl View for SuiEvent {
    type V = EventView;

    open spec fn view(&self) -> EventView {
        EventView {
            transaction_id: self.transaction_id@,
            transaction_kind: self.transaction_kind@,
            timestamp: self.timestamp as nat,
            sender: self.sender@,
            recipient: text_of(self.recipient),
            amount: number_of(self.amount),
            metadata: self.metadata@,
        }
    }
}

} // verus!
