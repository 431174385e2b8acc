//! Failures of the connector, reported as the runtime's stream errors.

use fluxus::utils::models::StreamError;
use vstd::prelude::*;

verus! {

/// `std::io::Error`, which one variant of the stream error carries. Nothing
/// here looks inside it.
#[verifier::external_type_specification]
#[verifier::external_body]
pub struct ExIoError(std::io::Error);

/// `fluxus::utils::models::StreamError`, read variant by variant as fluxus
/// defines it. The connector only ever makes the `Runtime` variant.
#[verifier::external_type_specification]
pub struct ExStreamError(StreamError);

/// The message of the failure that answers a poll on a source that is not
/// initialized.
pub open spec fn not_initialized() -> Seq<char> {
    "SuiSource not initialized"@
}

/// Whether `result` is a runtime failure that carries exactly `message`.
pub open spec fn fails_with<T>(result: Result<T, StreamError>, message: Seq<char>) -> bool {
    match result {
        Err(StreamError::Runtime(m)) => m@ == message,
        _ => false,
    }
}

} // verus!
