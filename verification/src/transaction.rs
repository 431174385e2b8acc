//! A ledger transaction as the gateway reports it, reduced to the plain
//! values the connector reads.

use vstd::prelude::*;

use crate::values::{number_of, text_of};

verus! {

/// The signed content of a transaction, present when the gateway was asked
/// for it and had it.
#[derive(Clone, Debug)]
pub struct RawPayload {
    /// Name of the command the transaction carries.
    pub kind: String,
    /// Canonical form of the sender's address; absent when the address the
    /// gateway reported is missing or does not parse as one.
    pub sender: Option<String>,
    /// Debug rendering of the transaction data.
    pub rendering: String,
}

/// The mathematical content of a [`RawPayload`].
pub struct RawPayloadView {
    pub kind: Seq<char>,
    pub sender: Option<Seq<char>>,
    pub rendering: Seq<char>,
}

impl View for RawPayload {
    type V = RawPayloadView;

    open spec fn view(&self) -> RawPayloadView {
        RawPayloadView {
            kind: self.kind@,
            sender: text_of(self.sender),
            rendering: self.rendering@,
        }
    }
}

/// One entry of a fetched batch.
#[derive(Clone, Debug)]
pub struct RawTransaction {
    /// Canonical digest of the transaction, as text.
    pub digest: String,
    /// Milliseconds since the epoch at which the ledger recorded it.
    pub timestamp_ms: Option<u64>,
    /// Sequence number of the checkpoint that holds it.
    pub checkpoint: Option<u64>,
    /// The signed content.
    pub payload: Option<RawPayload>,
}

/// The mathematical content of a [`RawTransaction`].
pub struct RawTransactionView {
    pub digest: Seq<char>,
    pub timestamp_ms: Option<nat>,
    pub checkpoint: Option<nat>,
    pub payload: Option<RawPayloadView>,
}

impl View for RawTransaction {
    type V = RawTransactionView;

    open spec fn view(&self) -> RawTransactionView {
        RawTransactionView {
            digest: self.digest@,
            timestamp_ms: number_of(self.timestamp_ms),
            checkpoint: number_of(self.checkpoint),
            payload: match self.payload {
                Some(p) => Some(p@),
                None => None,
            },
        }
    }
}

/// The most recent entry of a batch, which the gateway lists first.
pub open spec fn newest(batch: Seq<RawTransaction>) -> Option<RawTransactionView> {
    if batch.len() == 0 {
        None
    } else {
        Some(batch[0]@)
    }
}

} // verus!
