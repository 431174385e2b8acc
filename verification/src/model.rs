//! The connector as a state machine over mathematical values: what each
//! operation answers and which state it leaves, given what the gateway did.

use vstd::prelude::*;

use crate::error::not_initialized;
use crate::event::EventView;
use crate::transaction::RawTransactionView;
use crate::translate::translated;

verus! {

/// The state of a source. `C` is the gateway's client handle; the source is
/// initialized exactly while it holds one.
pub struct SourceState<C> {
    pub endpoint: Seq<char>,
    pub interval_ms: nat,
    pub max_transactions: nat,
    pub client: Option<C>,
    pub last_processed_id: Option<Seq<char>>,
    pub last_processed_checkpoint: Option<nat>,
}

/// What the gateway did when asked to connect: a client, or the message of
/// its failure.
pub type ConnectOutcome<C> = Result<C, Seq<char>>;

/// What the gateway did when asked for recent transactions: the most recent
/// one if the batch had any, or the message of its failure.
pub type FetchOutcome = Result<Option<RawTransactionView>, Seq<char>>;

/// One call on a source, with what the gateway did for it.
pub enum Call<C> {
    Initialize(ConnectOutcome<C>),
    Poll(FetchOutcome),
    Close,
}

impl<C> SourceState<C> {
    /// The state of a source that was just constructed.
    pub open spec fn created(endpoint: Seq<char>, interval_ms: nat, max_transactions: nat) -> Self {
        SourceState {
            endpoint,
            interval_ms,
            max_transactions,
            client: None,
            last_processed_id: None,
            last_processed_checkpoint: None,
        }
    }

    /// Whether the source is initialized: it is exactly while it holds a
    /// client.
    pub open spec fn initialized(self) -> bool {
        self.client is Some
    }

    /// The answer of an initialization: success, or the failure's message.
    pub open spec fn initialize_reply(self, outcome: ConnectOutcome<C>) -> Result<(), Seq<char>> {
        if self.initialized() {
            Ok(())
        } else {
            match outcome {
                Ok(_) => Ok(()),
                Err(message) => Err(message),
            }
        }
    }

    /// The state after an initialization.
    pub open spec fn initialize(self, outcome: ConnectOutcome<C>) -> Self {
        if self.initialized() {
            self
        } else {
            match outcome {
                Ok(client) => SourceState { client: Some(client), ..self },
                Err(_) => self,
            }
        }
    }

    /// Whether `raw`, the head of a fetched batch, is new to this source.
    pub open spec fn is_new(self, raw: RawTransactionView) -> bool {
        self.last_processed_id != Some(raw.digest)
    }

    /// The answer of a poll: at most one event, or the failure's message.
    pub open spec fn poll_reply(self, outcome: FetchOutcome) -> Result<Option<EventView>, Seq<char>> {
        if !self.initialized() {
            Err(not_initialized())
        } else {
            match outcome {
                Err(message) => Err(message),
                Ok(None) => Ok(None),
                Ok(Some(raw)) => if self.is_new(raw) {
                    Ok(Some(translated(raw)))
                } else {
                    Ok(None)
                },
            }
        }
    }

    /// The state after a poll.
    pub open spec fn poll(self, outcome: FetchOutcome) -> Self {
        if !self.initialized() {
            self
        } else {
            match outcome {
                Ok(Some(raw)) => if self.is_new(raw) {
                    SourceState {
                        last_processed_id: Some(raw.digest),
                        last_processed_checkpoint: raw.checkpoint,
                        ..self
                    }
                } else {
                    self
                },
                _ => self,
            }
        }
    }

    /// The state after a close.
    pub open spec fn close(self) -> Self {
        SourceState { client: None, ..self }
    }

    /// The state after one call.
    pub open spec fn step(self, call: Call<C>) -> Self {
        match call {
            Call::Initialize(outcome) => self.initialize(outcome),
            Call::Poll(outcome) => self.poll(outcome),
            Call::Close => self.close(),
        }
    }

    /// The event that one call emits, if it emits one.
    pub open spec fn emits(self, call: Call<C>) -> Option<EventView> {
        match call {
            Call::Poll(outcome) => match self.poll_reply(outcome) {
                Ok(Some(event)) => Some(event),
                _ => None,
            },
            _ => None,
        }
    }

    /// The state after a series of calls.
    pub open spec fn run(self, calls: Seq<Call<C>>) -> Self
        decreases calls.len(),
    {
        if calls.len() == 0 {
            self
        } else {
            self.run(calls.drop_last()).step(calls.last())
        }
    }

    /// The events that a series of calls emits, in the order of the calls.
    pub open spec fn events(self, calls: Seq<Call<C>>) -> Seq<EventView>
        decreases calls.len(),
    {
        if calls.len() == 0 {
            Seq::empty()
        } else {
            let earlier = self.events(calls.drop_last());
            match self.run(calls.drop_last()).emits(calls.last()) {
                Some(event) => earlier.push(event),
                None => earlier,
            }
        }
    }
}

} // verus!
