//! Text strings and byte strings, owned and borrowed.

use crate::cbor::{cbor_bytes, cbor_text, CborModel};
use crate::error::MimiContentError;
use crate::reading::{bytes_of, malformed, text_of};
use crate::traits::{MimiContentAsRef, MimiContentDeserialize, MimiContentSerialize};
use vstd::prelude::*;
use vstd::slice::slice_to_vec;
use vstd::std_specs::convert::FromSpecImpl;

verus! {

/// A text string, written to CBOR as a text item.
#[derive(Debug, Hash, PartialOrd, Ord, PartialEq, Eq)]
pub struct Tstr(String);

impl View for Tstr {
    type V = Seq<char>;

    closed spec fn view(&self) -> Seq<char> {
        self.0@
    }
}

impl Tstr {
    /// Gives up the string that the text holds.
    #[inline]
    pub fn into_inner(self) -> (s: String)
        ensures
            s@ == self@,
    {
        self.0
    }
}

impl Clone for Tstr {
    fn clone(&self) -> (copy: Self)
        ensures
            copy@ == self@,
    {
        Tstr(self.0.clone())
    }
}

impl Default for Tstr {
    fn default() -> (t: Self)
        ensures
            t@ == Seq::<char>::empty(),
    {
        Tstr(String::new())
    }
}

impl std::ops::Deref for Tstr {
    type Target = str;

    fn deref(&self) -> (s: &str)
        ensures
            s@ == self@,
    {
        self.0.as_str()
    }
}

impl From<Tstr> for String {
    fn from(value: Tstr) -> (s: String)
        ensures
            s@ == value@,
    {
        value.0
    }
}

impl FromSpecImpl<Tstr> for String {
    open spec fn obeys_from_spec() -> bool {
        true
    }

    closed spec fn from_spec(value: Tstr) -> String {
        value.0
    }
}

impl From<String> for Tstr {
    fn from(value: String) -> (t: Self)
        ensures
            t@ == value@,
    {
        Tstr(value)
    }
}

impl FromSpecImpl<String> for Tstr {
    open spec fn obeys_from_spec() -> bool {
        true
    }

    closed spec fn from_spec(value: String) -> Self {
        Tstr(value)
    }
}

impl From<&str> for Tstr {
    fn from(value: &str) -> (t: Self)
        ensures
            t@ == value@,
    {
        Tstr(value.to_owned())
    }
}

// No specification can build the string that holds given characters, so the conversion is
// stated by the `ensures` of `from` alone.
impl FromSpecImpl<&str> for Tstr {
    open spec fn obeys_from_spec() -> bool {
        false
    }

    closed spec fn from_spec(value: &str) -> Self {
        arbitrary()
    }
}

/// A borrowed text string.
#[derive(Debug, Hash, PartialOrd, Ord, PartialEq, Eq)]
pub struct TstrRef<'a>(&'a str);

impl<'a> View for TstrRef<'a> {
    type V = Seq<char>;

    closed spec fn view(&self) -> Seq<char> {
        self.0@
    }
}

impl<'a> Clone for TstrRef<'a> {
    fn clone(&self) -> (copy: Self)
        ensures
            copy@ == self@,
    {
        TstrRef(self.0)
    }
}

impl<'a> Default for TstrRef<'a> {
    fn default() -> (t: Self)
        ensures
            t@ == ""@,
    {
        TstrRef("")
    }
}

impl std::ops::Deref for TstrRef<'_> {
    type Target = str;

    fn deref(&self) -> (s: &str)
        ensures
            s@ == self@,
    {
        self.0
    }
}

impl MimiContentAsRef for Tstr {
    type Target<'a> = TstrRef<'a>;

    fn as_ref(&self) -> (r: TstrRef<'_>)
        ensures
            r@ == self@,
    {
        TstrRef(self.0.as_str())
    }
}

impl<'a> From<&'a str> for TstrRef<'a> {
    fn from(value: &'a str) -> (t: Self)
        ensures
            t@ == value@,
    {
        TstrRef(value)
    }
}

impl<'a> FromSpecImpl<&'a str> for TstrRef<'a> {
    open spec fn obeys_from_spec() -> bool {
        true
    }

    closed spec fn from_spec(value: &'a str) -> Self {
        TstrRef(value)
    }
}

/// A byte string, written to CBOR as a byte-string item and never as text.
#[derive(Debug, PartialEq, Eq)]
pub struct Bstr(Vec<u8>);

impl View for Bstr {
    type V = Seq<u8>;

    closed spec fn view(&self) -> Seq<u8> {
        self.0@
    }
}

impl Bstr {
    /// Gives up the bytes that the byte string holds.
    #[inline]
    pub fn into_inner(self) -> (bytes: Vec<u8>)
        ensures
            bytes@ == self@,
    {
        self.0
    }
}

impl Clone for Bstr {
    fn clone(&self) -> (copy: Self)
        ensures
            copy@ == self@,
    {
        Bstr(slice_to_vec(self.0.as_slice()))
    }
}

impl Default for Bstr {
    fn default() -> (b: Self)
        ensures
            b@ == Seq::<u8>::empty(),
    {
        Bstr(Vec::new())
    }
}

/// A borrowed byte string.
#[derive(Debug, PartialEq, Eq)]
pub struct BstrRef<'a>(&'a [u8]);

impl<'a> View for BstrRef<'a> {
    type V = Seq<u8>;

    closed spec fn view(&self) -> Seq<u8> {
        self.0@
    }
}

impl<'a> Clone for BstrRef<'a> {
    fn clone(&self) -> (copy: Self)
        ensures
            copy@ == self@,
    {
        BstrRef(self.0)
    }
}

impl<'a> Default for BstrRef<'a> {
    fn default() -> (b: Self)
        ensures
            b@ == Seq::<u8>::empty(),
    {
        let empty: &'static [u8] = &[];
        BstrRef(empty)
    }
}

impl MimiContentAsRef for Bstr {
    type Target<'a> = BstrRef<'a>;

    fn as_ref(&self) -> (r: BstrRef<'_>)
        ensures
            r@ == self@,
    {
        BstrRef(self.0.as_slice())
    }
}

impl From<Vec<u8>> for Bstr {
    fn from(value: Vec<u8>) -> (b: Self)
        ensures
            b@ == value@,
    {
        Bstr(value)
    }
}

impl FromSpecImpl<Vec<u8>> for Bstr {
    open spec fn obeys_from_spec() -> bool {
        true
    }

    closed spec fn from_spec(value: Vec<u8>) -> Self {
        Bstr(value)
    }
}

impl From<Bstr> for Vec<u8> {
    fn from(value: Bstr) -> (bytes: Vec<u8>)
        ensures
            bytes@ == value@,
    {
        value.0
    }
}

impl FromSpecImpl<Bstr> for Vec<u8> {
    open spec fn obeys_from_spec() -> bool {
        true
    }

    closed spec fn from_spec(value: Bstr) -> Vec<u8> {
        value.0
    }
}

impl<'a> From<&'a [u8]> for BstrRef<'a> {
    fn from(value: &'a [u8]) -> (b: Self)
        ensures
            b@ == value@,
    {
        BstrRef(value)
    }
}

impl<'a> FromSpecImpl<&'a [u8]> for BstrRef<'a> {
    open spec fn obeys_from_spec() -> bool {
        true
    }

    closed spec fn from_spec(value: &'a [u8]) -> Self {
        BstrRef(value)
    }
}

impl std::ops::Deref for Bstr {
    type Target = [u8];

    fn deref(&self) -> (bytes: &[u8])
        ensures
            bytes@ == self@,
    {
        self.0.as_slice()
    }
}

impl std::ops::Deref for BstrRef<'_> {
    type Target = [u8];

    fn deref(&self) -> (bytes: &[u8])
        ensures
            bytes@ == self@,
    {
        self.0
    }
}

impl MimiContentSerialize for TstrRef<'_> {
    open spec fn cbor(&self) -> CborModel {
        CborModel::Text(self@)
    }

    fn to_cbor_value(&self) -> (value: ciborium::Value) {
        cbor_text(self.0.to_owned())
    }
}

impl MimiContentSerialize for Tstr {
    open spec fn cbor(&self) -> CborModel {
        CborModel::Text(self@)
    }

    fn to_cbor_value(&self) -> (value: ciborium::Value) {
        cbor_text(self.0.clone())
    }
}

impl MimiContentSerialize for BstrRef<'_> {
    open spec fn cbor(&self) -> CborModel {
        CborModel::Bytes(self@)
    }

    fn to_cbor_value(&self) -> (value: ciborium::Value) {
        cbor_bytes(slice_to_vec(self.0))
    }
}

impl MimiContentSerialize for Bstr {
    open spec fn cbor(&self) -> CborModel {
        CborModel::Bytes(self@)
    }

    fn to_cbor_value(&self) -> (value: ciborium::Value) {
        cbor_bytes(slice_to_vec(self.0.as_slice()))
    }
}

impl MimiContentDeserialize for Tstr {
    open spec fn from_cbor(tree: CborModel) -> Option<Seq<char>> {
        text_of(tree)
    }

    fn from_cbor_value(value: &ciborium::Value) -> (r: Result<Self, MimiContentError>) {
        match value.as_text() {
            Some(content) => Ok(Tstr(content.to_owned())),
            None => malformed("expected a text string"),
        }
    }
}

impl MimiContentDeserialize for Bstr {
    open spec fn from_cbor(tree: CborModel) -> Option<Seq<u8>> {
        bytes_of(tree)
    }

    fn from_cbor_value(value: &ciborium::Value) -> (r: Result<Self, MimiContentError>) {
        match value.as_bytes() {
            Some(content) => Ok(Bstr(slice_to_vec(content.as_slice()))),
            None => malformed("expected a byte string"),
        }
    }
}

} // verus!
