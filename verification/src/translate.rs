//! Translation of a raw transaction into an event.

use vstd::prelude::*;

use crate::event::{EventView, SuiEvent};
use crate::transaction::{RawPayloadView, RawTransaction, RawTransactionView};

verus! {

/// The text that stands in for a field the ledger did not supply.
pub open spec fn unknown() -> Seq<char> {
    "unknown"@
}

/// The kind of operation: the payload's command name.
pub open spec fn kind_of(payload: Option<RawPayloadView>) -> Seq<char> {
    match payload {
        Some(p) => p.kind,
        None => unknown(),
    }
}

/// The sender: the payload's address, where it has a well-formed one.
pub open spec fn sender_of(payload: Option<RawPayloadView>) -> Seq<char> {
    match payload {
        Some(p) => match p.sender {
            Some(address) => address,
            None => unknown(),
        },
        None => unknown(),
    }
}

/// The metadata: the payload's rendering.
pub open spec fn metadata_of(payload: Option<RawPayloadView>) -> Seq<char> {
    match payload {
        Some(p) => p.rendering,
        None => unknown(),
    }
}

/// The time of the transaction, zero when the ledger reports none.
pub open spec fn timestamp_of(timestamp_ms: Option<nat>) -> nat {
    match timestamp_ms {
        Some(t) => t,
        None => 0,
    }
}

/// The event that a raw transaction stands for. Every raw transaction has
/// one: a missing field becomes its default.
pub open spec fn translated(raw: RawTransactionView) -> EventView {
    EventView {
        transaction_id: raw.digest,
        transaction_kind: kind_of(raw.payload),
        timestamp: timestamp_of(raw.timestamp_ms),
        sender: sender_of(raw.payload),
        recipient: None,
        amount: None,
        metadata: metadata_of(raw.payload),
    }
}

/// Converts a raw transaction into the event that stands for it.
pub fn transaction_to_event(transaction: &RawTransaction) -> (event: SuiEvent)
    ensures
        event@ == translated(transaction@),
        event.recipient is None,
        event.amount is None,
        transaction.timestamp_ms is None ==> event.timestamp == 0,
        transaction.payload is None ==> event.transaction_kind@ == unknown() && event.sender@
            == unknown() && event.metadata@ == unknown(),
        transaction.payload is Some && transaction.payload.unwrap().sender is None
            ==> event.sender@ == unknown(),
{
    let timestamp: u64 = match transaction.timestamp_ms {
        Some(t) => t,
        None => 0,
    };
    let transaction_kind = match &transaction.payload {
        Some(payload) => payload.kind.clone(),
        None => "unknown".to_string(),
    };
    let sender = match &transaction.payload {
        Some(payload) => match &payload.sender {
            Some(address) => address.clone(),
            None => "unknown".to_string(),
        },
        None => "unknown".to_string(),
    };
    let metadata = match &transaction.payload {
        Some(payload) => payload.rendering.clone(),
        None => "unknown".to_string(),
    };
    SuiEvent {
        transaction_id: transaction.digest.clone(),
        transaction_kind,
        timestamp,
        sender,
        recipient: None,
        amount: None,
        metadata,
    }
}

} // verus!
