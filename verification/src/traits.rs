//! What the types of the library have in common: a borrowed mirror, a CBOR form that is
//! written, and one that is read.

use crate::cbor::{cbor_decoding, cbor_encoding, cbor_model, read_cbor, write_cbor, CborModel};
use crate::error::MimiContentError;
use vstd::prelude::*;

verus! {

/// An owned value that can lend a borrowed mirror of itself: a value of the same shape whose
/// fields borrow from the owner.
pub trait MimiContentAsRef {
    type Target<'a> where Self: 'a;

    fn as_ref(&self) -> Self::Target<'_>;
}

/// A value that can be written as CBOR.
pub trait MimiContentSerialize {
    /// The CBOR tree that the value is written as.
    spec fn cbor(&self) -> CborModel;

    /// Builds the CBOR value that holds the tree of this value.
    fn to_cbor_value(&self) -> (value: ciborium::Value)
        ensures
            cbor_model(value) == self.cbor(),
    ;

    /// Writes the value as CBOR into a new buffer.
    fn to_cbor_bytes(&self) -> (r: Result<Vec<u8>, MimiContentError>)
        ensures
            match r {
                Ok(bytes) => cbor_encoding(self.cbor()) == Some(bytes@),
                Err(e) => cbor_encoding(self.cbor()) is None && e is SerializeError,
            },
    {
        let mut buf = Vec::new();
        match self.to_cbor_bytes_into(&mut buf) {
            Ok(()) => Ok(buf),
            Err(e) => Err(e),
        }
    }

    /// Writes the value as CBOR behind what the buffer holds. Where that fails, nothing is
    /// said of what the buffer holds.
    fn to_cbor_bytes_into(&self, buf: &mut Vec<u8>) -> (r: Result<(), MimiContentError>)
        ensures
            match r {
                Ok(()) => cbor_encoding(self.cbor()) matches Some(bytes) && final(buf)@ == old(
                    buf,
                )@ + bytes,
                Err(e) => cbor_encoding(self.cbor()) is None && e is SerializeError,
            },
    {
        let value = self.to_cbor_value();
        MimiContentError::written(write_cbor(&value, buf))
    }
}

/// A value that can be read from CBOR.
pub trait MimiContentDeserialize: Sized + View {
    /// What a CBOR tree is read as, if it has the shape of such a value.
    spec fn from_cbor(tree: CborModel) -> Option<Self::V>;

    /// Reads a value from a CBOR value.
    fn from_cbor_value(value: &ciborium::Value) -> (r: Result<Self, MimiContentError>)
        ensures
            match r {
                Ok(v) => Self::from_cbor(cbor_model(*value)) == Some(v@),
                Err(e) => Self::from_cbor(cbor_model(*value)) is None && e is DeserializeError,
            },
    ;

    /// Reads a value from CBOR bytes. What follows the first data item is not looked at.
    fn from_cbor_bytes(bytes: &[u8]) -> (r: Result<Self, MimiContentError>)
        ensures
            match r {
                Ok(v) => cbor_decoding(bytes@) matches Some(tree) && Self::from_cbor(tree) == Some(
                    v@,
                ),
                Err(e) => e is DeserializeError && (cbor_decoding(bytes@) matches Some(tree)
                    ==> Self::from_cbor(tree) is None),
            },
    {
        match MimiContentError::parsed(read_cbor(bytes)) {
            Ok(value) => Self::from_cbor_value(&value),
            Err(e) => Err(e),
        }
    }
}

} // verus!
