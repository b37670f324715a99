//! The CBOR data model, and the calls into `ciborium` that build, read, write and parse it.
//!
//! Nothing in this file is proved: each item below states what the named `ciborium` item does,
//! and the rest of the library is proved from these statements.

use vstd::prelude::*;

verus! {

/// `ciborium::Value`: a CBOR data item with all that is in it.
#[verifier::external_type_specification]
#[verifier::external_body]
pub struct ExCborValue(ciborium::Value);

/// `ciborium::value::CanonicalValue`: a CBOR data item in the form that has an order.
#[verifier::external_type_specification]
#[verifier::external_body]
pub struct ExCanonicalValue(ciborium::value::CanonicalValue);

/// `ciborium::ser::Error`: why a value could not be written.
#[verifier::external_type_specification]
#[verifier::external_body]
#[verifier::reject_recursive_types(T)]
pub struct ExSerError<T>(ciborium::ser::Error<T>);

/// `ciborium::de::Error`: why bytes could not be read.
#[verifier::external_type_specification]
#[verifier::external_body]
#[verifier::reject_recursive_types(T)]
pub struct ExDeError<T>(ciborium::de::Error<T>);

/// `std::io::Error`: why a byte sink or source failed.
#[verifier::external_type_specification]
#[verifier::external_body]
pub struct ExIoError(std::io::Error);

/// The tree of CBOR data items that a value stands for. A floating-point item is kept as the
/// bits of its double-precision form.
pub enum CborModel {
    Integer(int),
    Bytes(Seq<u8>),
    Text(Seq<char>),
    Array(Seq<CborModel>),
    Mapping(Seq<(CborModel, CborModel)>),
    Tagged(u64, Box<CborModel>),
    Bool(bool),
    Null,
    Float(u64),
}

/// The tree that a `ciborium::Value` holds.
pub uninterp spec fn cbor_model(v: ciborium::Value) -> CborModel;

/// The tree that a `ciborium::value::CanonicalValue` holds.
pub uninterp spec fn canonical_model(v: ciborium::value::CanonicalValue) -> CborModel;

/// The bytes that `ciborium::into_writer` writes for a value that holds the given tree, if it
/// accepts the value.
pub uninterp spec fn cbor_encoding(tree: CborModel) -> Option<Seq<u8>>;

/// The tree that `ciborium::from_reader` reads from the given bytes, if it accepts them.
pub uninterp spec fn cbor_decoding(bytes: Seq<u8>) -> Option<CborModel>;

/// The trees that a sequence of values holds, one for one.
pub open spec fn cbor_models(items: Seq<ciborium::Value>) -> Seq<CborModel> {
    Seq::new(items.len(), |i: int| cbor_model(items[i]))
}

/// The pairs of trees that a sequence of pairs of values holds, one for one.
pub open spec fn cbor_model_pairs(entries: Seq<(ciborium::Value, ciborium::Value)>) -> Seq<
    (CborModel, CborModel),
> {
    Seq::new(entries.len(), |i: int| (cbor_model(entries[i].0), cbor_model(entries[i].1)))
}

/// `ciborium::Value::Integer` of a `u64`: the integer item of that value.
#[verifier::external_body]
pub(crate) fn cbor_unsigned(n: u64) -> (v: ciborium::Value)
    ensures
        cbor_model(v) == CborModel::Integer(n as int),
{
    ciborium::Value::Integer(n.into())
}

/// `ciborium::Value::Integer` of an `i64`: the integer item of that value.
#[verifier::external_body]
pub(crate) fn cbor_signed(n: i64) -> (v: ciborium::Value)
    ensures
        cbor_model(v) == CborModel::Integer(n as int),
{
    ciborium::Value::Integer(n.into())
}

/// `ciborium::Value::Bytes`: the byte-string item with the given content.
#[verifier::external_body]
pub(crate) fn cbor_bytes(content: Vec<u8>) -> (v: ciborium::Value)
    ensures
        cbor_model(v) == CborModel::Bytes(content@),
{
    ciborium::Value::Bytes(content)
}

/// `ciborium::Value::Text`: the text item with the given content.
#[verifier::external_body]
pub(crate) fn cbor_text(content: String) -> (v: ciborium::Value)
    ensures
        cbor_model(v) == CborModel::Text(content@),
{
    ciborium::Value::Text(content)
}

/// `ciborium::Value::Bool`: the item `true` or `false`.
#[verifier::external_body]
pub(crate) fn cbor_bool(b: bool) -> (v: ciborium::Value)
    ensures
        cbor_model(v) == CborModel::Bool(b),
{
    ciborium::Value::Bool(b)
}

/// `ciborium::Value::Null`: the item `null`.
#[verifier::external_body]
pub(crate) fn cbor_null() -> (v: ciborium::Value)
    ensures
        cbor_model(v) == CborModel::Null,
{
    ciborium::Value::Null
}

/// `ciborium::Value::Array`: the array item with the given elements, in their order.
#[verifier::external_body]
pub(crate) fn cbor_array(items: Vec<ciborium::Value>) -> (v: ciborium::Value)
    ensures
        cbor_model(v) == CborModel::Array(cbor_models(items@)),
{
    ciborium::Value::Array(items)
}

/// `ciborium::Value::Map`: the map item with the given entries, in their order.
#[verifier::external_body]
pub(crate) fn cbor_map(entries: Vec<(ciborium::Value, ciborium::Value)>) -> (v: ciborium::Value)
    ensures
        cbor_model(v) == CborModel::Mapping(cbor_model_pairs(entries@)),
{
    ciborium::Value::Map(entries)
}

/// `ciborium::Value::Tag`: the given item under the given tag number.
#[verifier::external_body]
pub(crate) fn cbor_tagged(tag: u64, inner: ciborium::Value) -> (v: ciborium::Value)
    ensures
        cbor_model(v) == CborModel::Tagged(tag, Box::new(cbor_model(inner))),
{
    ciborium::Value::Tag(tag, Box::new(inner))
}

/// `ciborium::Value::as_integer`, with the `Integer` it returns turned into an `i128`: the
/// value of an integer item, nothing for any other item.
#[verifier::external_body]
pub(crate) fn cbor_as_integer(v: &ciborium::Value) -> (r: Option<i128>)
    ensures
        match r {
            Some(n) => cbor_model(*v) == CborModel::Integer(n as int),
            None => !(cbor_model(*v) is Integer),
        },
{
    v.as_integer().map(i128::from)
}

/// `ciborium::Value::as_bytes`: the content of a byte-string item, nothing for any other item.
pub assume_specification[ ciborium::Value::as_bytes ](v: &ciborium::Value) -> (r: Option<
    &Vec<u8>,
>)
    ensures
        match r {
            Some(content) => cbor_model(*v) == CborModel::Bytes(content@),
            None => !(cbor_model(*v) is Bytes),
        },
;

/// `ciborium::Value::as_text`: the content of a text item, nothing for any other item.
pub assume_specification[ ciborium::Value::as_text ](v: &ciborium::Value) -> (r: Option<&str>)
    ensures
        match r {
            Some(content) => cbor_model(*v) == CborModel::Text(content@),
            None => !(cbor_model(*v) is Text),
        },
;

/// `ciborium::Value::as_bool`: the value of a boolean item, nothing for any other item.
pub assume_specification[ ciborium::Value::as_bool ](v: &ciborium::Value) -> (r: Option<bool>)
    ensures
        match r {
            Some(b) => cbor_model(*v) == CborModel::Bool(b),
            None => !(cbor_model(*v) is Bool),
        },
;

/// `ciborium::Value::is_null`: whether the item is `null`.
pub assume_specification[ ciborium::Value::is_null ](v: &ciborium::Value) -> (r: bool)
    ensures
        r == (cbor_model(*v) is Null),
;

/// `ciborium::Value::as_array`: the elements of an array item, nothing for any other item.
pub assume_specification[ ciborium::Value::as_array ](v: &ciborium::Value) -> (r: Option<
    &Vec<ciborium::Value>,
>)
    ensures
        match r {
            Some(items) => cbor_model(*v) == CborModel::Array(cbor_models(items@)),
            None => !(cbor_model(*v) is Array),
        },
;

/// `ciborium::Value::as_map`: the entries of a map item, nothing for any other item.
pub assume_specification[ ciborium::Value::as_map ](v: &ciborium::Value) -> (r: Option<
    &Vec<(ciborium::Value, ciborium::Value)>,
>)
    ensures
        match r {
            Some(entries) => cbor_model(*v) == CborModel::Mapping(cbor_model_pairs(entries@)),
            None => !(cbor_model(*v) is Mapping),
        },
;

/// `ciborium::Value::as_tag`: the tag number and the item under it, nothing for an item
/// without a tag.
pub assume_specification[ ciborium::Value::as_tag ](v: &ciborium::Value) -> (r: Option<
    (u64, &ciborium::Value),
>)
    ensures
        match r {
            Some((tag, inner)) => cbor_model(*v) == CborModel::Tagged(
                tag,
                Box::new(cbor_model(*inner)),
            ),
            None => !(cbor_model(*v) is Tagged),
        },
;

/// `Clone` of `ciborium::Value`: a value that holds the same tree.
#[verifier::external_body]
pub(crate) fn cbor_clone(v: &ciborium::Value) -> (copy: ciborium::Value)
    ensures
        cbor_model(copy) == cbor_model(*v),
{
    v.clone()
}

/// `From<ciborium::Value>` of `CanonicalValue`: the same tree, in a value that can be compared.
#[verifier::external_body]
pub(crate) fn canonical_of(v: ciborium::Value) -> (c: ciborium::value::CanonicalValue)
    ensures
        canonical_model(c) == cbor_model(v),
{
    ciborium::value::CanonicalValue::from(v)
}

/// `From<CanonicalValue>` of `ciborium::Value`: the same tree, in a plain value again.
#[verifier::external_body]
pub(crate) fn canonical_into_value(c: ciborium::value::CanonicalValue) -> (v: ciborium::Value)
    ensures
        cbor_model(v) == canonical_model(c),
{
    ciborium::Value::from(c)
}

/// `Clone` of `CanonicalValue`: a value that holds the same tree.
#[verifier::external_body]
pub(crate) fn canonical_clone(c: &ciborium::value::CanonicalValue) -> (copy:
    ciborium::value::CanonicalValue)
    ensures
        canonical_model(copy) == canonical_model(*c),
{
    c.clone()
}

/// `ciborium::into_writer` on a `Vec<u8>`: the encoding of the value's tree has been appended
/// to the buffer, and an error comes exactly where the tree has no encoding. Writing to a
/// vector does not fail, so the value alone decides.
#[verifier::external_body]
pub(crate) fn write_cbor(v: &ciborium::Value, buf: &mut Vec<u8>) -> (r: Result<
    (),
    ciborium::ser::Error<std::io::Error>,
>)
    ensures
        match r {
            Ok(()) => cbor_encoding(cbor_model(*v)) matches Some(bytes) && final(buf)@ == old(
                buf,
            )@ + bytes,
            Err(_) => cbor_encoding(cbor_model(*v)) is None,
        },
{
    ciborium::into_writer(v, buf)
}

/// `ciborium::from_reader` on a byte slice, read as a `ciborium::Value`: the value holds the
/// tree that the bytes decode to, and an error comes exactly where they decode to none.
#[verifier::external_body]
pub(crate) fn read_cbor(bytes: &[u8]) -> (r: Result<
    ciborium::Value,
    ciborium::de::Error<std::io::Error>,
>)
    ensures
        match r {
            Ok(v) => cbor_decoding(bytes@) == Some(cbor_model(v)),
            Err(_) => cbor_decoding(bytes@) is None,
        },
{
    ciborium::from_reader(bytes)
}

/// `ciborium::de::Error::semantic` without an offset: the error that `ciborium` gives for
/// well-formed CBOR of the wrong shape, with the given description.
#[verifier::external_body]
pub(crate) fn shape_error(description: &str) -> ciborium::de::Error<std::io::Error> {
    ciborium::de::Error::semantic(None, description)
}

/// `ciborium::de::Error::RecursionLimitExceeded`: the error that `ciborium` gives for input
/// nested deeper than it was told to follow.
#[verifier::external_body]
pub(crate) fn nesting_error() -> ciborium::de::Error<std::io::Error> {
    ciborium::de::Error::RecursionLimitExceeded
}

} // verus!
