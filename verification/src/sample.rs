//! Classification of one tag read into a sample outcome.
//!
//! The field-protocol client hands the engine `Result<u8, TagReadError>` per
//! read; the sampler classifies that into a `SampleOutcome`, keeping timeouts
//! apart from other read failures. A failed sample is never fatal: it is
//! counted and the sensor's state is left untouched until the next cycle.

use vstd::prelude::*;

verus! {

/// Why one tag read failed.
#[derive(PartialEq, Eq, Structural, Clone, Copy, Debug)]
pub enum TagReadError {
    /// The PLC endpoint could not be reached.
    NotReachable,
    /// The read did not complete within the bounded wait.
    Timeout,
    /// The protocol layer reported a failure, with its status code.
    ProtocolError(u32),
}

/// What one sampling attempt produced: a value, a read failure with its
/// reason, or a timeout.
#[derive(PartialEq, Eq, Structural, Clone, Copy, Debug)]
pub enum SampleOutcome {
    Value(u8),
    ReadFailed(TagReadError),
    Timeout,
}

/// How a raw read result is classified: a value is passed through, a timeout
/// is reported as such, and every other failure keeps its reason.
pub open spec fn spec_classify(r: Result<u8, TagReadError>) -> SampleOutcome {
    match r {
        Ok(v) => SampleOutcome::Value(v),
        Err(TagReadError::Timeout) => SampleOutcome::Timeout,
        Err(e) => SampleOutcome::ReadFailed(e),
    }
}

/// Classifies one tag read result into a sample outcome.
pub fn classify_read(r: Result<u8, TagReadError>) -> (o: SampleOutcome)
    ensures
        o == spec_classify(r),
{
    match r {
        Ok(v) => SampleOutcome::Value(v),
        Err(TagReadError::Timeout) => SampleOutcome::Timeout,
        Err(e) => SampleOutcome::ReadFailed(e),
    }
}

} // verus!
