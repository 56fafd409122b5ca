use vstd::prelude::*;

verus! {

/// The error taxonomy of the generator.
///
/// `ConfigurationError` covers invalid generation parameters: a requested
/// identifier length below the minimum, or a repetition count above the
/// configured maximum. `EntropyUnavailableError` reports that the secure
/// random source could not supply bytes; it is not retried.
#[derive(Clone, Copy, Debug, PartialEq, Eq, Structural)]
pub enum GenError {
    ConfigurationError,
    EntropyUnavailableError,
}

} // verus!
