//! Stamped records, as the pipeline runtime expects them.

use fluxus::utils::models::Record;
use vstd::prelude::*;

use crate::event::SuiEvent;

verus! {

/// `fluxus::utils::models::Record`, read field by field as fluxus defines
/// it: the payload `data` and the `timestamp` in milliseconds.
#[verifier::external_type_specification]
#[verifier::reject_recursive_types(T)]
pub struct ExRecord<T>(Record<T>);

/// Wraps an event with `fluxus::utils::models::Record::new`, which stamps it
/// with the wall-clock time of the call. The event is carried unchanged;
/// nothing is claimed of the stamp.
#[verifier::external_body]
pub(crate) fn stamp(event: SuiEvent) -> (record: Record<SuiEvent>)
    ensures
        record.data == event,
{
    Record::new(event)
}

} // verus!
