//! Error vocabulary: typed configuration failures and the single decode error.

use vstd::prelude::*;

verus! {

/// A violated invariant of the parameter set, carrying the offending value(s).
#[derive(Clone, Copy, Debug, PartialEq, Eq, Structural)]
pub enum ConfigurationError {
    BackendUnsupportedError,
    HashLengthTooShortError { hash_length: u32 },
    IterationsTooFewError { iterations: u32 },
    LanesTooFewError { lanes: u32 },
    LanesTooManyError { lanes: u32 },
    MemorySizeTooSmallError { lanes: u32, memory_size: u32 },
    MemorySizeInvalidError { memory_size: u32 },
    ThreadsTooFewError { threads: u32 },
    ThreadsTooManyError { threads: u32 },
}

/// The one error of the hash codec: any structural defect of the input
/// (missing delimiter, non-numeric field, bad base64, unknown tag) is
/// indistinguishable from any other at the type level.
#[derive(Clone, Copy, Debug, PartialEq, Eq, Structural)]
pub struct HashDecodingError;

} // verus!
