//! What holds of the connector across calls, proved over the model.

use vstd::prelude::*;

use crate::error::not_initialized;
use crate::event::EventView;
use crate::model::{Call, ConnectOutcome, FetchOutcome, SourceState};
use crate::transaction::RawTransactionView;
use crate::translate::{translated, unknown};

verus! {

/// A poll on a source that is not initialized fails with the message that
/// says so, whatever the gateway would have answered, and changes nothing.
pub proof fn poll_needs_initialization<C>(state: SourceState<C>, outcome: FetchOutcome)
    requires
        !state.initialized(),
    ensures
        state.poll_reply(outcome) == Err::<Option<EventView>, Seq<char>>(
            not_initialized(),
        ),
        state.poll(outcome) == state,
{
}

/// A source that was never initialized, and one that was closed, are not
/// initialized.
pub proof fn fresh_and_closed_are_uninitialized<C>(
    state: SourceState<C>,
    endpoint: Seq<char>,
    interval_ms: nat,
    max_transactions: nat,
)
    ensures
        !SourceState::<C>::created(endpoint, interval_ms, max_transactions).initialized(),
        !state.close().initialized(),
{
}

/// Initializing a source that is initialized succeeds without connecting,
/// and leaves the source as it was, client included.
pub proof fn initialize_is_idempotent<C>(state: SourceState<C>, outcome: ConnectOutcome<C>)
    requires
        state.initialized(),
    ensures
        state.initialize_reply(outcome) == Ok::<(), Seq<char>>(()),
        state.initialize(outcome) == state,
{
}

/// After an initialization that succeeded the source is initialized, and a
/// second one keeps the client of the first, whatever a second connection
/// attempt would have come to.
pub proof fn second_initialize_keeps_client<C>(
    state: SourceState<C>,
    first: ConnectOutcome<C>,
    second: ConnectOutcome<C>,
)
    requires
        state.initialize_reply(first) is Ok,
    ensures
        state.initialize(first).initialized(),
        state.initialize(first).initialize_reply(second) == Ok::<(), Seq<char>>(()),
        state.initialize(first).initialize(second) == state.initialize(first),
        !state.initialized() ==> state.initialize(first).client == Some(first->Ok_0),
{
}

/// An initialization that fails to connect reports the failure's message
/// and leaves the source uninitialized and otherwise unchanged.
pub proof fn failed_initialize_changes_nothing<C>(state: SourceState<C>, message: Seq<char>)
    requires
        !state.initialized(),
    ensures
        state.initialize_reply(Err(message)) == Err::<(), Seq<char>>(message),
        state.initialize(Err(message)) == state,
{
}

/// When two polls in a row find the same transaction at the head of the
/// batch, the second emits nothing.
pub proof fn repeated_head_is_suppressed<C>(
    state: SourceState<C>,
    first: RawTransactionView,
    second: RawTransactionView,
)
    requires
        state.initialized(),
        first.digest == second.digest,
    ensures
        state.poll(Ok(Some(first))).poll_reply(Ok(Some(second))) == Ok::<
            Option<EventView>,
            Seq<char>,
        >(None),
        state.poll(Ok(Some(first))).poll(Ok(Some(second))) == state.poll(Ok(Some(first))),
{
}

/// A head that differs from the transaction emitted last is emitted under
/// its own identifier, and is then the transaction emitted last.
pub proof fn new_head_is_emitted<C>(state: SourceState<C>, head: RawTransactionView)
    requires
        state.initialized(),
        state.last_processed_id != Some(head.digest),
    ensures
        state.poll_reply(Ok(Some(head))) == Ok::<Option<EventView>, Seq<char>>(
            Some(translated(head)),
        ),
        translated(head).transaction_id == head.digest,
        state.poll(Ok(Some(head))).last_processed_id == Some(head.digest),
        state.poll(Ok(Some(head))).last_processed_checkpoint == head.checkpoint,
{
}

/// An empty batch is no failure: the poll emits nothing and changes nothing.
pub proof fn empty_batch_yields_nothing<C>(state: SourceState<C>)
    requires
        state.initialized(),
    ensures
        state.poll_reply(Ok(None)) == Ok::<Option<EventView>, Seq<char>>(None),
        state.poll(Ok(None)) == state,
{
}

/// A fetch that fails is reported with the gateway's own message, and
/// changes nothing.
pub proof fn failed_fetch_is_reported<C>(state: SourceState<C>, message: Seq<char>)
    requires
        state.initialized(),
    ensures
        state.poll_reply(Err(message)) == Err::<Option<EventView>, Seq<char>>(
            message,
        ),
        state.poll(Err(message)) == state,
{
}

/// A poll changes nothing but the memory of what was emitted last: the
/// configuration and the client stay.
pub proof fn poll_keeps_configuration_and_client<C>(state: SourceState<C>, outcome: FetchOutcome)
    ensures
        state.poll(outcome).endpoint == state.endpoint,
        state.poll(outcome).interval_ms == state.interval_ms,
        state.poll(outcome).max_transactions == state.max_transactions,
        state.poll(outcome).client == state.client,
{
}

/// Every raw transaction has an event. A missing payload leaves kind,
/// sender and metadata unknown, a missing sender leaves the sender
/// unknown, a missing time becomes zero, and recipient and amount are
/// never set.
pub proof fn translation_is_total(raw: RawTransactionView)
    ensures
        translated(raw).transaction_id == raw.digest,
        translated(raw).recipient is None,
        translated(raw).amount is None,
        raw.timestamp_ms is None ==> translated(raw).timestamp == 0,
        raw.payload is None ==> translated(raw).transaction_kind == unknown() && translated(
            raw,
        ).sender == unknown() && translated(raw).metadata == unknown(),
        raw.payload is Some && raw.payload->Some_0.sender is None ==> translated(raw).sender
            == unknown(),
{
}

/// Closing twice is closing once, and closing forgets nothing but the
/// client.
pub proof fn close_is_idempotent<C>(state: SourceState<C>)
    ensures
        state.close().close() == state.close(),
        state.close().last_processed_id == state.last_processed_id,
        state.close().last_processed_checkpoint == state.last_processed_checkpoint,
{
}

/// A source that is closed and initialized again still suppresses the
/// transaction it emitted last.
pub proof fn restart_resumes_deduplication<C>(
    state: SourceState<C>,
    client: C,
    head: RawTransactionView,
)
    requires
        state.last_processed_id == Some(head.digest),
    ensures
        state.close().initialize(Ok(client)).initialized(),
        state.close().initialize(Ok(client)).poll_reply(Ok(Some(head))) == Ok::<
            Option<EventView>,
            Seq<char>,
        >(None),
{
}

/// The identifier of the event emitted last in a series of calls, or what
/// the source remembered before them if they emitted none.
pub open spec fn last_emitted<C>(state: SourceState<C>, calls: Seq<Call<C>>) -> Option<Seq<char>> {
    let events = state.events(calls);
    if events.len() == 0 {
        state.last_processed_id
    } else {
        Some(events.last().transaction_id)
    }
}

/// Through any series of calls the source remembers the identifier of the
/// event it emitted last, and its configuration stays as it was made.
pub proof fn source_remembers_last_emitted<C>(state: SourceState<C>, calls: Seq<Call<C>>)
    ensures
        state.run(calls).last_processed_id == last_emitted(state, calls),
        state.run(calls).endpoint == state.endpoint,
        state.run(calls).interval_ms == state.interval_ms,
        state.run(calls).max_transactions == state.max_transactions,
    decreases calls.len(),
{
    if calls.len() > 0 {
        source_remembers_last_emitted(state, calls.drop_last());
    }
}

/// In any series of calls, initializations and closes included, no two
/// events in a row carry the same identifier, and the first differs from
/// what the source remembered before.
pub proof fn no_event_twice_in_a_row<C>(state: SourceState<C>, calls: Seq<Call<C>>)
    ensures
        state.events(calls).len() > 0 ==> state.last_processed_id != Some(
            state.events(calls)[0].transaction_id,
        ),
        forall|i: int|
            0 <= i < state.events(calls).len() - 1 ==> state.events(calls)[i].transaction_id
                != (#[trigger] state.events(calls)[i + 1]).transaction_id,
    decreases calls.len(),
{
    if calls.len() > 0 {
        let earlier = calls.drop_last();
        no_event_twice_in_a_row(state, earlier);
        source_remembers_last_emitted(state, earlier);
    }
}

/// A series of calls emits no more events than it has calls.
pub proof fn at_most_one_event_per_call<C>(state: SourceState<C>, calls: Seq<Call<C>>)
    ensures
        state.events(calls).len() <= calls.len(),
    decreases calls.len(),
{
    if calls.len() > 0 {
        at_most_one_event_per_call(state, calls.drop_last());
    }
}

} // verus!
