//! The leaves of a CBOR tree: what an item holds if it is of the kind that is asked for.

use crate::cbor::{cbor_as_integer, cbor_model, shape_error, CborModel};
use crate::error::MimiContentError;
use vstd::prelude::*;

verus! {

/// The content of a text item.
pub open spec fn text_of(tree: CborModel) -> Option<Seq<char>> {
    match tree {
        CborModel::Text(content) => Some(content),
        _ => None,
    }
}

/// The content of a byte-string item.
pub open spec fn bytes_of(tree: CborModel) -> Option<Seq<u8>> {
    match tree {
        CborModel::Bytes(content) => Some(content),
        _ => None,
    }
}

/// The unsigned integer that an item holds, if it is an integer from 0 to `max`.
pub open spec fn uint_of(tree: CborModel, max: int) -> Option<int> {
    match tree {
        CborModel::Integer(n) => if 0 <= n <= max {
            Some(n)
        } else {
            None
        },
        _ => None,
    }
}

/// Reads an unsigned integer no greater than `max`.
pub fn read_uint(value: &ciborium::Value, max: u64) -> (r: Option<u64>)
    ensures
        match r {
            Some(n) => uint_of(cbor_model(*value), max as int) == Some(n as int),
            None => uint_of(cbor_model(*value), max as int) is None,
        },
{
    match cbor_as_integer(value) {
        Some(n) => {
            if 0 <= n && n <= max as i128 {
                Some(n as u64)
            } else {
                None
            }
        },
        None => None,
    }
}

/// The error for input of the wrong shape.
pub(crate) fn malformed<A>(description: &str) -> (r: Result<A, MimiContentError>)
    ensures
        r matches Err(e) && e is DeserializeError,
{
    Err(MimiContentError::DeserializeError(shape_error(description)))
}

} // verus!
