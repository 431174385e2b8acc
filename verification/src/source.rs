//! The polling source: configuration, connection and the memory of what was
//! last emitted.

use fluxus::utils::models::{Record, StreamError};
use vstd::prelude::*;

use crate::error::{fails_with, not_initialized};
use crate::event::{EventView, SuiEvent};
use crate::model::{ConnectOutcome, FetchOutcome, SourceState};
use crate::record::stamp;
use crate::transaction::{newest, RawTransaction};
use crate::translate::transaction_to_event;
use crate::values::{number_of, text_of};

verus! {

/// The endpoint of the public mainnet full node.
pub open spec fn mainnet_endpoint() -> Seq<char> {
    "https://fullnode.mainnet.sui.io:443"@
}

/// What an initialization has to do before it can complete.
#[derive(Clone, Debug)]
pub enum InitPlan {
    /// The source is initialized already: there is nothing to do.
    Ready,
    /// Connect to this endpoint and hand the outcome to [`SuiSource::initialize`].
    Connect(String),
}

/// What a poll has to do before it can complete: wait, then fetch.
#[derive(Clone, Copy, Debug)]
pub struct PollPlan {
    /// Milliseconds to wait before the fetch.
    pub delay_ms: u64,
    /// The most transactions to ask for.
    pub limit: usize,
    /// Ask for each transaction's input.
    pub with_input: bool,
    /// Ask for each transaction's effects.
    pub with_effects: bool,
    /// Ask for each transaction's events.
    pub with_events: bool,
    /// Ask for each transaction's balance changes.
    pub with_balance_changes: bool,
    /// Ask for the most recent transactions, the latest first.
    pub newest_first: bool,
}

impl PollPlan {
    /// The plan of a source with this interval and this batch size: wait
    /// the interval, then ask for up to that many of the most recent
    /// transactions with every enrichment.
    pub open spec fn is_for(self, interval_ms: nat, max_transactions: nat) -> bool {
        &&& self.delay_ms == interval_ms
        &&& self.limit == max_transactions
        &&& self.with_input
        &&& self.with_effects
        &&& self.with_events
        &&& self.with_balance_changes
        &&& self.newest_first
    }
}

/// What a connection attempt came to, as the model sees it.
pub open spec fn connect_outcome<C>(outcome: Result<C, String>) -> ConnectOutcome<C> {
    match outcome {
        Ok(client) => Ok(client),
        Err(message) => Err(message@),
    }
}

/// What a fetch came to, as the model sees it.
pub open spec fn fetch_outcome(outcome: Result<Vec<RawTransaction>, String>) -> FetchOutcome {
    match outcome {
        Ok(batch) => Ok(newest(batch@)),
        Err(message) => Err(message@),
    }
}

/// Whether `result` is what the model answers with `reply`.
pub open spec fn answers(
    result: Result<Option<Record<SuiEvent>>, StreamError>,
    reply: Result<Option<EventView>, Seq<char>>,
) -> bool {
    match reply {
        Ok(None) => result == Ok::<Option<Record<SuiEvent>>, StreamError>(None),
        Ok(Some(event)) => result matches Ok(Some(record)) && record.data@ == event,
        Err(message) => fails_with(result, message),
    }
}

/// A source of ledger events that polls a gateway at a fixed cadence.
///
/// `C` is the gateway's client handle. The source owns it from a successful
/// initialization until it is closed.
pub struct SuiSource<C> {
    rpc_url: String,
    interval_ms: u64,
    max_transactions: usize,
    client: Option<C>,
    last_processed_id: Option<String>,
    last_processed_checkpoint: Option<u64>,
}

impl<C> View for SuiSource<C> {
    type V = SourceState<C>;

    closed spec fn view(&self) -> SourceState<C> {
        SourceState {
            endpoint: self.rpc_url@,
            interval_ms: self.interval_ms as nat,
            max_transactions: self.max_transactions as nat,
            client: self.client,
            last_processed_id: text_of(self.last_processed_id),
            last_processed_checkpoint: number_of(self.last_processed_checkpoint),
        }
    }
}

impl<C> SuiSource<C> {
    /// Creates a source for the gateway at `rpc_url` that waits
    /// `interval_ms` before each fetch and asks for at most
    /// `max_transactions` at a time. It starts out uninitialized.
    pub fn new(rpc_url: String, interval_ms: u64, max_transactions: usize) -> (source: Self)
        ensures
            source@ == SourceState::<C>::created(
                rpc_url@,
                interval_ms as nat,
                max_transactions as nat,
            ),
    {
        SuiSource {
            rpc_url,
            interval_ms,
            max_transactions,
            client: None,
            last_processed_id: None,
            last_processed_checkpoint: None,
        }
    }

    /// Creates a source for the public mainnet full node.
    pub fn new_with_mainnet(interval_ms: u64, max_transactions: usize) -> (source: Self)
        ensures
            source@ == SourceState::<C>::created(
                mainnet_endpoint(),
                interval_ms as nat,
                max_transactions as nat,
            ),
    {
        Self::new("https://fullnode.mainnet.sui.io:443".to_string(), interval_ms, max_transactions)
    }

    /// Whether the source is initialized.
    pub fn is_initialized(&self) -> (initialized: bool)
        ensures
            initialized == self@.initialized(),
    {
        self.client.is_some()
    }

    /// Says what an initialization has to do first: nothing on a source that
    /// is initialized, else connect to the configured endpoint.
    pub fn plan_initialize(&self) -> (plan: InitPlan)
        ensures
            self@.initialized() ==> plan is Ready,
            !self@.initialized() ==> (plan matches InitPlan::Connect(endpoint) && endpoint@
                == self@.endpoint),
    {
        if self.client.is_some() {
            InitPlan::Ready
        } else {
            InitPlan::Connect(self.rpc_url.clone())
        }
    }

    /// Completes an initialization with the outcome of the connection
    /// attempt. An initialized source keeps the client it has and succeeds.
    /// Otherwise a client is adopted, and a failure is reported with its
    /// message and leaves the source uninitialized.
    pub fn initialize(&mut self, outcome: Result<C, String>) -> (result: Result<(), StreamError>)
        ensures
            final(self)@ == old(self)@.initialize(connect_outcome(outcome)),
            match old(self)@.initialize_reply(connect_outcome(outcome)) {
                Ok(_) => result is Ok,
                Err(message) => fails_with(result, message),
            },
    {
        if self.client.is_some() {
            return Ok(());
        }
        match outcome {
            Ok(client) => {
                self.client = Some(client);
                Ok(())
            },
            Err(message) => Err(StreamError::Runtime(message)),
        }
    }

    /// Says what a poll has to do first. On an initialized source: wait the
    /// interval, then fetch. Otherwise the poll fails at once, and there is
    /// nothing to carry out.
    pub fn plan_poll(&self) -> (result: Result<PollPlan, StreamError>)
        ensures
            self@.initialized() ==> (result matches Ok(plan) && plan.is_for(
                self@.interval_ms,
                self@.max_transactions,
            )),
            !self@.initialized() ==> fails_with(result, not_initialized()),
    {
        if self.client.is_none() {
            return Err(StreamError::Runtime("SuiSource not initialized".to_string()));
        }
        Ok(
            PollPlan {
                delay_ms: self.interval_ms,
                limit: self.max_transactions,
                with_input: true,
                with_effects: true,
                with_events: true,
                with_balance_changes: true,
                newest_first: true,
            },
        )
    }

    /// Completes a poll with the outcome of the fetch. The head of the batch
    /// is emitted, and remembered, unless it is the transaction that was
    /// emitted last; an empty batch yields nothing; a failed fetch is
    /// reported with its message. The record carries the event and the time
    /// at which it was made.
    pub fn poll_next(&mut self, outcome: Result<Vec<RawTransaction>, String>) -> (result: Result<
        Option<Record<SuiEvent>>,
        StreamError,
    >)
        ensures
            final(self)@ == old(self)@.poll(fetch_outcome(outcome)),
            answers(result, old(self)@.poll_reply(fetch_outcome(outcome))),
    {
        if self.client.is_none() {
            return Err(StreamError::Runtime("SuiSource not initialized".to_string()));
        }
        let batch = match outcome {
            Ok(batch) => batch,
            Err(message) => {
                return Err(StreamError::Runtime(message));
            },
        };
        if batch.len() == 0 {
            return Ok(None);
        }
        let latest = &batch[0];
        let seen = match &self.last_processed_id {
            Some(last) => *last == latest.digest,
            None => false,
        };
        if seen {
            return Ok(None);
        }
        self.last_processed_id = Some(latest.digest.clone());
        self.last_processed_checkpoint = latest.checkpoint;
        let event = transaction_to_event(latest);
        Ok(Some(stamp(event)))
    }

    /// Closes the source: the client is released. What was emitted last
    /// stays remembered, and the source can be initialized again.
    pub fn close(&mut self) -> (result: Result<(), StreamError>)
        ensures
            result is Ok,
            final(self)@ == old(self)@.close(),
    {
        self.client = None;
        Ok(())
    }

    /// The client, while the source is initialized.
    pub fn client(&self) -> (client: Option<&C>)
        ensures
            match client {
                Some(c) => self@.client == Some(*c),
                None => self@.client is None,
            },
    {
        self.client.as_ref()
    }

    /// The identifier of the transaction that was emitted last.
    pub fn last_processed_id(&self) -> (id: Option<&String>)
        ensures
            match id {
                Some(text) => self@.last_processed_id == Some(text@),
                None => self@.last_processed_id is None,
            },
    {
        self.last_processed_id.as_ref()
    }

    /// The checkpoint of the transaction that was emitted last.
    pub fn last_processed_checkpoint(&self) -> (checkpoint: Option<u64>)
        ensures
            number_of(checkpoint) == self@.last_processed_checkpoint,
    {
        self.last_processed_checkpoint
    }
}

} // verus!
