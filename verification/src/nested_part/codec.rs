//! The positional CBOR form of a part: an array of the disposition, the language, the tag of
//! the content, and then exactly the fields that the tag announces.

use crate::cbor::{
    cbor_array, cbor_encoding, cbor_model, cbor_models, cbor_unsigned, nesting_error, CborModel,
};
use crate::common::{Bstr, Tstr};
use crate::dispositions::Disposition;
use crate::error::MimiContentError;
use crate::nested_part::{
    nested_part_ref_view_unfolds, nested_part_view_unfolds, ExternalPart, ExternalPartRef,
    ExternalPartView, MultiPart, MultiPartRef, MultiPartView, NestedPart, NestedPartContent,
    NestedPartContentCardinality, NestedPartContentRef, NestedPartContentView, NestedPartRef,
    NestedPartView, PartSemantics, SinglePart, SinglePartRef, SinglePartView,
};
use crate::reading::{bytes_of, malformed, read_uint, text_of, uint_of};
use crate::traits::{MimiContentAsRef, MimiContentDeserialize, MimiContentSerialize};
use vstd::prelude::*;

verus! {

/// The deepest nesting of parts that is read when no other bound is given.
pub const MAX_NESTING_DEPTH: usize = 128;

/// The fields that follow the tag of a content, in their order.
pub open spec fn encode_content_fields(content: NestedPartContentView) -> Seq<CborModel>
    decreases content,
{
    match content {
        NestedPartContentView::NullPart => seq![],
        NestedPartContentView::SinglePart(single) => seq![
            CborModel::Text(single.content_type),
            CborModel::Bytes(single.content),
        ],
        NestedPartContentView::ExternalPart(external) => seq![
            CborModel::Text(external.content_type),
            CborModel::Text(external.url),
            CborModel::Integer(external.expires as int),
            CborModel::Integer(external.size as int),
            CborModel::Integer(external.enc_alg as int),
            CborModel::Bytes(external.key),
            CborModel::Bytes(external.nonce),
            CborModel::Bytes(external.aad),
            CborModel::Integer(external.hash_alg as int),
            CborModel::Bytes(external.content_hash),
            CborModel::Text(external.description),
            CborModel::Text(external.filename),
        ],
        NestedPartContentView::MultiPart(multi) => seq![
            CborModel::Integer(multi.part_semantics.code() as int),
            CborModel::Array(
                Seq::new(
                    multi.parts.len(),
                    |i: int|
                        if 0 <= i < multi.parts.len() {
                            encode_nested_part(multi.parts[i])
                        } else {
                            CborModel::Null
                        },
                ),
            ),
        ],
    }
}

/// The CBOR tree of a part.
pub open spec fn encode_nested_part(part: NestedPartView) -> CborModel
    decreases part,
{
    CborModel::Array(
        seq![
            CborModel::Integer(part.disposition as int),
            CborModel::Text(part.language),
            CborModel::Integer(part.part_content.cardinality().code() as int),
        ] + encode_content_fields(part.part_content),
    )
}

/// The single part that the fields after the tag stand for.
pub open spec fn decode_single_part(items: Seq<CborModel>) -> Option<SinglePartView> {
    if items.len() != 5 {
        None
    } else {
        match (text_of(items[3]), bytes_of(items[4])) {
            (Some(content_type), Some(content)) => Some(SinglePartView { content_type, content }),
            _ => None,
        }
    }
}

/// Whether the fields after the tag have the shape of an external part: fourteen or fifteen
/// elements in all, each of the kind and in the range of its field.
pub open spec fn has_external_part_shape(items: Seq<CborModel>) -> bool {
    &&& items.len() == 14 || items.len() == 15
    &&& text_of(items[3]) is Some
    &&& text_of(items[4]) is Some
    &&& uint_of(items[5], u32::MAX as int) is Some
    &&& uint_of(items[6], u64::MAX as int) is Some
    &&& uint_of(items[7], u16::MAX as int) is Some
    &&& bytes_of(items[8]) is Some
    &&& bytes_of(items[9]) is Some
    &&& bytes_of(items[10]) is Some
    &&& uint_of(items[11], u8::MAX as int) is Some
    &&& bytes_of(items[12]) is Some
    &&& text_of(items[13]) is Some
    &&& items.len() == 15 ==> text_of(items[14]) is Some
}

/// The external part that the fields after the tag stand for. The last of them, the file
/// name, may be missing, and is then empty; no other field may.
pub open spec fn decode_external_part(items: Seq<CborModel>) -> Option<ExternalPartView> {
    if has_external_part_shape(items) {
        Some(
            ExternalPartView {
                content_type: text_of(items[3])->0,
                url: text_of(items[4])->0,
                expires: uint_of(items[5], u32::MAX as int)->0 as u32,
                size: uint_of(items[6], u64::MAX as int)->0 as u64,
                enc_alg: uint_of(items[7], u16::MAX as int)->0 as u16,
                key: bytes_of(items[8])->0,
                nonce: bytes_of(items[9])->0,
                aad: bytes_of(items[10])->0,
                hash_alg: uint_of(items[11], u8::MAX as int)->0 as u8,
                content_hash: bytes_of(items[12])->0,
                description: text_of(items[13])->0,
                filename: if items.len() == 15 {
                    text_of(items[14])->0
                } else {
                    Seq::<char>::empty()
                },
            },
        )
    } else {
        None
    }
}

/// The multipart that the fields after the tag stand for, each of its parts read no deeper
/// than `depth` parts.
pub open spec fn decode_multi_part(items: Seq<CborModel>, depth: nat) -> Option<MultiPartView>
    decreases depth, 1nat,
{
    if items.len() == 5 && uint_of(items[3], 2) is Some && items[4] is Array {
        let children = items[4]->Array_0;
        if forall|i: int|
            #![trigger children[i]]
            0 <= i < children.len() ==> decode_nested_part(children[i], depth) is Some {
            Some(
                MultiPartView {
                    part_semantics: PartSemantics::of_code(uint_of(items[3], 2)->0)->0,
                    parts: Seq::new(
                        children.len(),
                        |i: int| decode_nested_part(children[i], depth)->0,
                    ),
                },
            )
        } else {
            None
        }
    } else {
        None
    }
}

/// The content that the fields after the tag stand for, the parts of a multipart read no
/// deeper than `depth` parts: nothing where the number of fields is not the one that the tag
/// announces, nor where a field has not the shape that its place asks for.
pub open spec fn decode_part_content(
    items: Seq<CborModel>,
    tag: NestedPartContentCardinality,
    depth: nat,
) -> Option<NestedPartContentView>
    decreases depth, 2nat,
{
    match tag {
        NestedPartContentCardinality::NullPart => if items.len() == 3 {
            Some(NestedPartContentView::NullPart)
        } else {
            None
        },
        NestedPartContentCardinality::SinglePart => match decode_single_part(items) {
            Some(single) => Some(NestedPartContentView::SinglePart(single)),
            None => None,
        },
        NestedPartContentCardinality::ExternalPart => match decode_external_part(items) {
            Some(external) => Some(NestedPartContentView::ExternalPart(external)),
            None => None,
        },
        NestedPartContentCardinality::MultiPart => match decode_multi_part(items, depth) {
            Some(multi) => Some(NestedPartContentView::MultiPart(multi)),
            None => None,
        },
    }
}

/// Whether a CBOR tree starts as a part does: an array of at least a disposition of one byte,
/// a language and a tag.
pub open spec fn has_part_head(tree: CborModel) -> bool {
    &&& tree matches CborModel::Array(items)
    &&& items.len() >= 3
    &&& uint_of(items[0], u8::MAX as int) is Some
    &&& text_of(items[1]) is Some
    &&& uint_of(items[2], 3) is Some
}

/// The part that a CBOR tree stands for, read no deeper than `depth` parts: nothing where an
/// element is missing, of the wrong kind or out of range, where the number of elements is not
/// the one that the tag announces, or where the parts are nested deeper than `depth`.
pub open spec fn decode_nested_part(tree: CborModel, depth: nat) -> Option<NestedPartView>
    decreases depth, 0nat,
{
    if depth > 0 && has_part_head(tree) {
        let items = tree->Array_0;
        let tag = NestedPartContentCardinality::of_code(uint_of(items[2], 3)->0)->0;
        match decode_part_content(items, tag, (depth - 1) as nat) {
            Some(part_content) => Some(
                NestedPartView {
                    disposition: uint_of(items[0], u8::MAX as int)->0 as u8,
                    language: text_of(items[1])->0,
                    part_content,
                },
            ),
            None => None,
        }
    } else {
        None
    }
}

/// Whether a part, with all the parts below it, is nested no deeper than `depth`.
pub open spec fn within_depth(part: NestedPartView, depth: nat) -> bool
    decreases depth,
{
    depth > 0 && match part.part_content {
        NestedPartContentView::MultiPart(multi) => forall|i: int|
            #![trigger multi.parts[i]]
            0 <= i < multi.parts.len() ==> within_depth(multi.parts[i], (depth - 1) as nat),
        _ => true,
    }
}

/// The number of elements of the array that a part is written as: three, and as many more
/// as the tag of its content announces.
pub open spec fn encoded_len(part: NestedPartView) -> nat {
    3 + part.part_content.cardinality().extra_field_count()
}

/// A part is written as an array of exactly three elements and the fields of its content:
/// none for a null part, two for a single part, twelve for an external part, two for a
/// multipart.
pub proof fn encoded_field_count(part: NestedPartView)
    ensures
        encode_nested_part(part) is Array,
        encode_nested_part(part)->Array_0.len() == encoded_len(part),
        part.part_content is NullPart ==> encoded_len(part) == 3,
        part.part_content is SinglePart ==> encoded_len(part) == 5,
        part.part_content is ExternalPart ==> encoded_len(part) == 15,
        part.part_content is MultiPart ==> encoded_len(part) == 5,
        encode_nested_part(part)->Array_0[2] == CborModel::Integer(
            part.part_content.cardinality().code() as int,
        ),
{
}

/// Reading what a part is written as gives the part back, whatever the part, as long as the
/// bound on the nesting admits it.
pub proof fn decode_inverts_encode(part: NestedPartView, depth: nat)
    requires
        within_depth(part, depth),
    ensures
        decode_nested_part(encode_nested_part(part), depth) == Some(part),
    decreases depth,
{
    match part.part_content {
        NestedPartContentView::MultiPart(multi) => {
            let children = encode_nested_part(part)->Array_0[4]->Array_0;
            assert forall|i: int| 0 <= i < children.len() implies decode_nested_part(
                #[trigger] children[i],
                (depth - 1) as nat,
            ) == Some(multi.parts[i]) by {
                decode_inverts_encode(multi.parts[i], (depth - 1) as nat);
            }
            let decoded = decode_nested_part(encode_nested_part(part), depth);
            assert(decoded->0.part_content->MultiPart_0.parts =~= multi.parts);
        },
        _ => {},
    }
}

/// A part that was read with a bound on the nesting is nested no deeper than that bound.
pub proof fn decoded_within_depth(tree: CborModel, depth: nat)
    requires
        decode_nested_part(tree, depth) is Some,
    ensures
        within_depth(decode_nested_part(tree, depth)->0, depth),
    decreases depth,
{
    let part = decode_nested_part(tree, depth)->0;
    match part.part_content {
        NestedPartContentView::MultiPart(multi) => {
            let children = tree->Array_0[4]->Array_0;
            assert forall|i: int| 0 <= i < multi.parts.len() implies within_depth(
                #[trigger] multi.parts[i],
                (depth - 1) as nat,
            ) by {
                decoded_within_depth(children[i], (depth - 1) as nat);
            }
        },
        _ => {},
    }
}

/// Writing a part that was read, and reading it again, gives the same part: the cycle of
/// reading and writing changes nothing after the first reading.
pub proof fn decode_encode_decode(tree: CborModel, depth: nat)
    requires
        decode_nested_part(tree, depth) is Some,
    ensures
        decode_nested_part(encode_nested_part(decode_nested_part(tree, depth)->0), depth)
            == decode_nested_part(tree, depth),
{
    decoded_within_depth(tree, depth);
    decode_inverts_encode(decode_nested_part(tree, depth)->0, depth);
}

/// The number of elements that a part is written as: this is known before any of them is
/// written.
pub fn map_len_for_nestedpartref(nested_part: &NestedPartRef<'_>) -> (n: usize)
    ensures
        n == encoded_len(nested_part@),
{
    proof {
        nested_part_ref_view_unfolds(*nested_part);
    }
    let extra_fields = match &nested_part.part_content {
        NestedPartContentRef::NullPart => 0,
        NestedPartContentRef::SinglePart(_) => SinglePartRef::field_count(),
        NestedPartContentRef::MultiPart(_) => MultiPartRef::field_count(),
        NestedPartContentRef::ExternalPart(_) => ExternalPartRef::field_count(),
    };
    NestedPartRef::field_count() + extra_fields
}

/// Builds the CBOR value of a borrowed part, with all the parts below it.
fn encode_part(part: &NestedPartRef<'_>) -> (value: ciborium::Value)
    ensures
        cbor_model(value) == encode_nested_part(part@),
    decreases part,
{
    proof {
        nested_part_ref_view_unfolds(*part);
    }
    // the number of elements is known before the first of them is written
    let count = map_len_for_nestedpartref(part);
    let mut items: Vec<ciborium::Value> = Vec::with_capacity(count);
    items.push(cbor_unsigned(part.disposition.to_code() as u64));
    items.push(part.language.to_cbor_value());
    items.push(cbor_unsigned(part.part_content.cardinality().to_code() as u64));
    match &part.part_content {
        NestedPartContentRef::NullPart => {},
        NestedPartContentRef::SinglePart(single) => {
            items.push(single.content_type.to_cbor_value());
            items.push(single.content.to_cbor_value());
        },
        NestedPartContentRef::ExternalPart(external) => {
            items.push(external.content_type.to_cbor_value());
            items.push(external.url.to_cbor_value());
            items.push(cbor_unsigned(*external.expires as u64));
            items.push(cbor_unsigned(*external.size));
            items.push(cbor_unsigned(*external.enc_alg as u64));
            items.push(external.key.to_cbor_value());
            items.push(external.nonce.to_cbor_value());
            items.push(external.aad.to_cbor_value());
            items.push(cbor_unsigned(*external.hash_alg as u64));
            items.push(external.content_hash.to_cbor_value());
            items.push(external.description.to_cbor_value());
            items.push(external.filename.to_cbor_value());
        },
        NestedPartContentRef::MultiPart(multi) => {
            items.push(cbor_unsigned(multi.part_semantics.to_code() as u64));
            items.push(encode_parts(multi));
        },
    }
    assert(items.len() == count);
    assert(cbor_models(items@) =~= encode_nested_part(part@)->Array_0);
    cbor_array(items)
}

/// Builds the CBOR array of the parts of a borrowed multipart, in their order.
fn encode_parts(multi: &MultiPartRef<'_>) -> (value: ciborium::Value)
    ensures
        cbor_model(value) == encode_content_fields(NestedPartContentView::MultiPart(multi@))[1],
    decreases multi,
{
    let mut children: Vec<ciborium::Value> = Vec::with_capacity(multi.parts.len());
    let mut i: usize = 0;
    while i < multi.parts.len()
        invariant
            i <= multi.parts.len(),
            children.len() == i,
            forall|j: int|
                0 <= j < i ==> cbor_model(#[trigger] children[j]) == encode_nested_part(
                    multi.parts[j]@,
                ),
        decreases multi.parts.len() - i,
    {
        children.push(encode_part(&multi.parts[i]));
        i += 1;
    }
    assert(cbor_models(children@) =~= encode_content_fields(
        NestedPartContentView::MultiPart(multi@),
    )[1]->Array_0);
    cbor_array(children)
}

impl MimiContentSerialize for NestedPartRef<'_> {
    open spec fn cbor(&self) -> CborModel {
        encode_nested_part(self@)
    }

    fn to_cbor_value(&self) -> (value: ciborium::Value) {
        encode_part(self)
    }
}

impl MimiContentSerialize for NestedPart {
    open spec fn cbor(&self) -> CborModel {
        encode_nested_part(self@)
    }

    fn to_cbor_value(&self) -> (value: ciborium::Value) {
        self.as_ref().to_cbor_value()
    }
}

/// Reads the text item at a position of an array.
fn read_text_at(items: &Vec<ciborium::Value>, at: usize) -> (r: Result<Tstr, MimiContentError>)
    requires
        at < items.len(),
    ensures
        match r {
            Ok(text) => text_of(cbor_models(items@)[at as int]) == Some(text@),
            Err(e) => text_of(cbor_models(items@)[at as int]) is None && e is DeserializeError,
        },
{
    Tstr::from_cbor_value(&items[at])
}

/// Reads the byte-string item at a position of an array.
fn read_bytes_at(items: &Vec<ciborium::Value>, at: usize) -> (r: Result<Bstr, MimiContentError>)
    requires
        at < items.len(),
    ensures
        match r {
            Ok(bytes) => bytes_of(cbor_models(items@)[at as int]) == Some(bytes@),
            Err(e) => bytes_of(cbor_models(items@)[at as int]) is None && e is DeserializeError,
        },
{
    Bstr::from_cbor_value(&items[at])
}

/// Reads the unsigned integer at a position of an array.
fn read_uint_at(items: &Vec<ciborium::Value>, at: usize, max: u64) -> (r: Result<
    u64,
    MimiContentError,
>)
    requires
        at < items.len(),
    ensures
        match r {
            Ok(n) => uint_of(cbor_models(items@)[at as int], max as int) == Some(n as int),
            Err(e) => uint_of(cbor_models(items@)[at as int], max as int) is None
                && e is DeserializeError,
        },
{
    match read_uint(&items[at], max) {
        Some(n) => Ok(n),
        None => malformed("expected an unsigned integer in range"),
    }
}

/// Reads the fields of a single part from the elements of its node.
fn read_single_part(items: &Vec<ciborium::Value>) -> (r: Result<SinglePart, MimiContentError>)
    ensures
        match r {
            Ok(single) => decode_single_part(cbor_models(items@)) == Some(single@),
            Err(e) => decode_single_part(cbor_models(items@)) is None && e is DeserializeError,
        },
{
    if items.len() != 5 {
        return malformed("a single part has five elements");
    }
    let content_type = read_text_at(items, 3)?;
    let content = read_bytes_at(items, 4)?;
    Ok(SinglePart { content_type, content })
}

/// Reads the fields of an external part from the elements of its node. The file name comes
/// last and may be missing: it is then empty.
fn read_external_part(items: &Vec<ciborium::Value>) -> (r: Result<ExternalPart, MimiContentError>)
    ensures
        match r {
            Ok(external) => decode_external_part(cbor_models(items@)) == Some(external@),
            Err(e) => decode_external_part(cbor_models(items@)) is None && e is DeserializeError,
        },
{
    if items.len() != 14 && items.len() != 15 {
        return malformed("an external part has fourteen or fifteen elements");
    }
    let content_type = read_text_at(items, 3)?;
    let url = read_text_at(items, 4)?;
    let expires = read_uint_at(items, 5, u32::MAX as u64)?;
    let size = read_uint_at(items, 6, u64::MAX)?;
    let enc_alg = read_uint_at(items, 7, u16::MAX as u64)?;
    let key = read_bytes_at(items, 8)?;
    let nonce = read_bytes_at(items, 9)?;
    let aad = read_bytes_at(items, 10)?;
    let hash_alg = read_uint_at(items, 11, u8::MAX as u64)?;
    let content_hash = read_bytes_at(items, 12)?;
    let description = read_text_at(items, 13)?;
    let filename = if items.len() == 15 {
        read_text_at(items, 14)?
    } else {
        Tstr::default()
    };
    Ok(
        ExternalPart {
            content_type,
            url,
            expires: expires as u32,
            size,
            enc_alg: enc_alg as u16,
            key,
            nonce,
            aad,
            hash_alg: hash_alg as u8,
            content_hash,
            description,
            filename,
        },
    )
}

/// Reads the parts of a multipart from the elements of its node, each no deeper than
/// `max_depth` parts.
fn read_multi_part(items: &Vec<ciborium::Value>, max_depth: usize) -> (r: Result<
    MultiPart,
    MimiContentError,
>)
    ensures
        match r {
            Ok(multi) => decode_multi_part(cbor_models(items@), max_depth as nat) == Some(multi@),
            Err(e) => decode_multi_part(cbor_models(items@), max_depth as nat) is None
                && e is DeserializeError,
        },
    decreases max_depth, 1nat,
{
    if items.len() != 5 {
        return malformed("a multipart has five elements");
    }
    let code = read_uint_at(items, 3, 2)?;
    let part_semantics = match PartSemantics::from_code(code) {
        Some(semantics) => semantics,
        None => { return malformed("unknown part semantics"); },
    };
    let children = match items[4].as_array() {
        Some(children) => children,
        None => { return malformed("the parts of a multipart are an array"); },
    };
    let ghost trees = cbor_models(children@);
    let mut parts: Vec<NestedPart> = Vec::with_capacity(children.len());
    let mut i: usize = 0;
    while i < children.len()
        invariant
            i <= children.len(),
            parts.len() == i,
            trees == cbor_models(children@),
            items.len() == 5,
            cbor_models(items@)[4] == CborModel::Array(trees),
            forall|j: int|
                0 <= j < i ==> decode_nested_part(#[trigger] trees[j], max_depth as nat) == Some(
                    parts[j]@,
                ),
        decreases children.len() - i,
    {
        match read_nested_part(&children[i], max_depth) {
            Ok(part) => {
                parts.push(part);
            },
            Err(e) => {
                assert(decode_nested_part(trees[i as int], max_depth as nat) is None);
                return Err(e);
            },
        }
        i += 1;
    }
    let multi = MultiPart { part_semantics, parts };
    assert(decode_multi_part(cbor_models(items@), max_depth as nat)->0.parts =~= multi@.parts);
    Ok(multi)
}

/// Reads a part from a CBOR value, no deeper than `max_depth` parts.
pub fn read_nested_part(value: &ciborium::Value, max_depth: usize) -> (r: Result<
    NestedPart,
    MimiContentError,
>)
    ensures
        match r {
            Ok(part) => decode_nested_part(cbor_model(*value), max_depth as nat) == Some(part@),
            Err(e) => decode_nested_part(cbor_model(*value), max_depth as nat) is None
                && e is DeserializeError,
        },
    decreases max_depth, 0nat,
{
    if max_depth == 0 {
        return Err(MimiContentError::DeserializeError(nesting_error()));
    }
    let items = match value.as_array() {
        Some(items) => items,
        None => { return malformed("a part is an array"); },
    };
    if items.len() < 3 {
        return malformed("a part has at least three elements");
    }
    let disposition = Disposition::from_code(read_uint_at(items, 0, u8::MAX as u64)? as u8);
    let language = read_text_at(items, 1)?;
    let tag = match NestedPartContentCardinality::from_code(read_uint_at(items, 2, 3)?) {
        Some(tag) => tag,
        None => { return malformed("unknown content tag"); },
    };
    let part_content = match tag {
        NestedPartContentCardinality::NullPart => {
            if items.len() != 3 {
                return malformed("a null part has three elements");
            }
            NestedPartContent::NullPart
        },
        NestedPartContentCardinality::SinglePart => NestedPartContent::SinglePart(
            read_single_part(items)?,
        ),
        NestedPartContentCardinality::ExternalPart => NestedPartContent::ExternalPart(
            read_external_part(items)?,
        ),
        NestedPartContentCardinality::MultiPart => NestedPartContent::MultiPart(
            read_multi_part(items, max_depth - 1)?,
        ),
    };
    let part = NestedPart { disposition, language, part_content };
    proof {
        nested_part_view_unfolds(part);
    }
    Ok(part)
}

impl MimiContentDeserialize for NestedPart {
    open spec fn from_cbor(tree: CborModel) -> Option<NestedPartView> {
        decode_nested_part(tree, MAX_NESTING_DEPTH as nat)
    }

    fn from_cbor_value(value: &ciborium::Value) -> (r: Result<Self, MimiContentError>) {
        read_nested_part(value, MAX_NESTING_DEPTH)
    }
}

/// A part and its borrowed mirror are written as the same tree, and so as the same bytes.
pub proof fn mirror_encodes_alike(part: NestedPart, mirror: NestedPartRef)
    requires
        mirror@ == part@,
    ensures
        mirror.cbor() == part.cbor(),
        cbor_encoding(mirror.cbor()) == cbor_encoding(part.cbor()),
{
}

} // verus!
