//! The errors of the library.

use vstd::prelude::*;

verus! {

/// What can go wrong in this library.
#[derive(Debug)]
pub enum MimiContentError {
    /// The CBOR writer refused a value.
    SerializeError(ciborium::ser::Error<std::io::Error>),
    /// The input is no CBOR, or CBOR of the wrong shape: an element is missing, of the wrong
    /// kind or out of range, or the parts are nested too deep.
    DeserializeError(ciborium::de::Error<std::io::Error>),
    /// The hash algorithm is known, and not supported.
    UnsupportedMessageIdHashAlg(u8),
    /// The hash algorithm is absent or unknown.
    UnknownMessageIdHashAlg(Option<u8>),
    /// The code of a custom hash algorithm lies in the range kept for the standard ones.
    CustomMessageIdHashAlgOutOfRange(u8),
    /// The byte sink or source failed.
    IoError(std::io::Error),
}

impl MimiContentError {
    /// What an attempt to write CBOR comes to: success as it is, a failure as a
    /// `SerializeError` that holds it.
    pub fn written(outcome: Result<(), ciborium::ser::Error<std::io::Error>>) -> (r: Result<
        (),
        MimiContentError,
    >)
        ensures
            match outcome {
                Ok(()) => r is Ok,
                Err(e) => r == Err::<(), MimiContentError>(MimiContentError::SerializeError(e)),
            },
    {
        match outcome {
            Ok(()) => Ok(()),
            Err(e) => Err(MimiContentError::SerializeError(e)),
        }
    }

    /// What an attempt to parse CBOR comes to: the value as it is, a failure as a
    /// `DeserializeError` that holds it.
    pub fn parsed(outcome: Result<ciborium::Value, ciborium::de::Error<std::io::Error>>) -> (r:
        Result<ciborium::Value, MimiContentError>)
        ensures
            match outcome {
                Ok(value) => r == Ok::<ciborium::Value, MimiContentError>(value),
                Err(e) => r == Err::<ciborium::Value, MimiContentError>(
                    MimiContentError::DeserializeError(e),
                ),
            },
    {
        match outcome {
            Ok(value) => Ok(value),
            Err(e) => Err(MimiContentError::DeserializeError(e)),
        }
    }
}

} // verus!
