//! The content envelope: the root record of a message, and the guarded way to build one.

use crate::cbor::{
    cbor_array, cbor_bool, cbor_bytes, cbor_encoding, cbor_model, cbor_models, cbor_null,
    cbor_unsigned, CborModel,
};
use crate::common::{Bstr, BstrRef, Tstr};
use crate::error::MimiContentError;
use crate::extensions::{
    decode_entries, decode_entries_inverts_encode, decoded_names_distinct, encode_entries,
    encode_extensions, extension_entries, extensions_clone, extensions_get, extensions_new,
    lookup_entry, names_distinct, read_extensions, Entries, ExtensionValue, Name, NameView,
};
use crate::message_id::{decode_message_id, MessageId, MessageIdRef};
use crate::nested_part::codec::{
    decode_inverts_encode, decode_nested_part, decoded_within_depth, encode_nested_part,
    read_nested_part, within_depth, MAX_NESTING_DEPTH,
};
use crate::nested_part::{NestedPart, NestedPartRef, NestedPartView};
use crate::reading::{bytes_of, malformed, read_uint, text_of, uint_of};
use crate::traits::{MimiContentAsRef, MimiContentDeserialize, MimiContentSerialize};
use indexmap::IndexMap;
use vstd::prelude::*;
use vstd::slice::slice_to_vec;

pub mod builder;

verus! {

/// The media type of a content envelope.
pub const MIMI_CONTENT_MIME: &'static str = "application/mimi-content";

/// The media type of a delivery report.
pub const MIMI_CONTENT_MESSAGE_STATUS_MIME: &'static str = "application/mimi-message-status";

/// The salt of a content: 16 bytes that make two messages of one content differ.
pub type MimiContentSalt = [u8; 16];

/// When a message expires: `time` is a duration from the acceptance of the message where
/// `relative` holds, a time since the epoch where not.
#[derive(Debug, Clone, Copy, PartialEq, Eq)]
pub struct Expiration {
    pub relative: bool,
    pub time: u32,
}

impl Default for Expiration {
    fn default() -> (e: Self)
        ensures
            e == (Expiration { relative: false, time: 0 }),
    {
        Expiration { relative: false, time: 0 }
    }
}

/// The CBOR tree of an expiration: an array of the flag and the time.
pub open spec fn encode_expiration(expiration: Expiration) -> CborModel {
    CborModel::Array(
        seq![CborModel::Bool(expiration.relative), CborModel::Integer(expiration.time as int)],
    )
}

/// The expiration that a CBOR tree stands for: an array of exactly a boolean and an unsigned
/// integer of 32 bits.
pub open spec fn decode_expiration(tree: CborModel) -> Option<Expiration> {
    match tree {
        CborModel::Array(items) => if items.len() != 2 {
            None
        } else {
            match (items[0], uint_of(items[1], u32::MAX as int)) {
                (CborModel::Bool(relative), Some(time)) => Some(
                    Expiration { relative, time: time as u32 },
                ),
                _ => None,
            }
        },
        _ => None,
    }
}

impl MimiContentSerialize for Expiration {
    open spec fn cbor(&self) -> CborModel {
        encode_expiration(*self)
    }

    fn to_cbor_value(&self) -> (value: ciborium::Value) {
        let mut items: Vec<ciborium::Value> = Vec::with_capacity(2);
        items.push(cbor_bool(self.relative));
        items.push(cbor_unsigned(self.time as u64));
        assert(cbor_models(items@) =~= encode_expiration(*self)->Array_0);
        cbor_array(items)
    }
}

impl View for Expiration {
    type V = Expiration;

    open spec fn view(&self) -> Expiration {
        *self
    }
}

impl MimiContentDeserialize for Expiration {
    open spec fn from_cbor(tree: CborModel) -> Option<Expiration> {
        decode_expiration(tree)
    }

    fn from_cbor_value(value: &ciborium::Value) -> (r: Result<Self, MimiContentError>) {
        let items = match value.as_array() {
            Some(items) => items,
            None => { return malformed("an expiration is an array"); },
        };
        if items.len() != 2 {
            return malformed("an expiration has two elements");
        }
        let relative = match items[0].as_bool() {
            Some(relative) => relative,
            None => { return malformed("the first element of an expiration is a boolean"); },
        };
        let time = match read_uint(&items[1], u32::MAX as u64) {
            Some(time) => time as u32,
            None => { return malformed("the time of an expiration is an unsigned integer"); },
        };
        Ok(Expiration { relative, time })
    }
}

/// A standard extension: one that has an integer name of its own.
pub trait MimiContentStandardExtension {
    /// The integer that names the extension.
    const EXTENSION_KEY_INT: i64;

    /// The name of the extension.
    fn extension_key() -> (name: Name)
        ensures
            name@ == NameView::Int(Self::EXTENSION_KEY_INT),
    {
        Name::Int(Self::EXTENSION_KEY_INT)
    }
}

/// The URI of the sender, kept under the name 1.
#[derive(Debug, PartialEq, Eq)]
pub struct SenderUriExtension(Tstr);

impl Clone for SenderUriExtension {
    fn clone(&self) -> (copy: Self)
        ensures
            copy@ == self@,
    {
        SenderUriExtension(self.0.clone())
    }
}

impl View for SenderUriExtension {
    type V = Seq<char>;

    closed spec fn view(&self) -> Seq<char> {
        self.0@
    }
}

impl MimiContentStandardExtension for SenderUriExtension {
    const EXTENSION_KEY_INT: i64 = 1;
}

impl std::ops::Deref for SenderUriExtension {
    type Target = Tstr;

    fn deref(&self) -> (uri: &Tstr)
        ensures
            uri@ == self@,
    {
        &self.0
    }
}

impl MimiContentDeserialize for SenderUriExtension {
    open spec fn from_cbor(tree: CborModel) -> Option<Seq<char>> {
        text_of(tree)
    }

    fn from_cbor_value(value: &ciborium::Value) -> (r: Result<Self, MimiContentError>) {
        match Tstr::from_cbor_value(value) {
            Ok(uri) => Ok(SenderUriExtension(uri)),
            Err(e) => Err(e),
        }
    }
}

/// The URI of the room, kept under the name 2.
#[derive(Debug, PartialEq, Eq)]
pub struct RoomUriExtension(Tstr);

impl Clone for RoomUriExtension {
    fn clone(&self) -> (copy: Self)
        ensures
            copy@ == self@,
    {
        RoomUriExtension(self.0.clone())
    }
}

impl View for RoomUriExtension {
    type V = Seq<char>;

    closed spec fn view(&self) -> Seq<char> {
        self.0@
    }
}

impl MimiContentStandardExtension for RoomUriExtension {
    const EXTENSION_KEY_INT: i64 = 2;
}

impl std::ops::Deref for RoomUriExtension {
    type Target = Tstr;

    fn deref(&self) -> (uri: &Tstr)
        ensures
            uri@ == self@,
    {
        &self.0
    }
}

impl MimiContentDeserialize for RoomUriExtension {
    open spec fn from_cbor(tree: CborModel) -> Option<Seq<char>> {
        text_of(tree)
    }

    fn from_cbor_value(value: &ciborium::Value) -> (r: Result<Self, MimiContentError>) {
        match Tstr::from_cbor_value(value) {
            Ok(uri) => Ok(RoomUriExtension(uri)),
            Err(e) => Err(e),
        }
    }
}

/// A content envelope, as a specification sees it.
pub struct MimiContentView {
    pub salt: Seq<u8>,
    pub replaces: Option<Seq<u8>>,
    pub topic_id: Seq<u8>,
    pub expires: Option<Expiration>,
    pub in_reply_to: Option<Seq<u8>>,
    pub extensions: Entries,
    pub nested_part: NestedPartView,
}

impl MimiContentView {
    /// Whether the envelope can be held and read with parts nested no deeper than `depth`:
    /// the salt has 16 bytes, the identifiers have 32, no extension is named twice, and the
    /// parts are nested no deeper than that.
    pub open spec fn wf_within(self, depth: nat) -> bool {
        &&& self.salt.len() == 16
        &&& (self.replaces matches Some(id) ==> id.len() == 32)
        &&& (self.in_reply_to matches Some(id) ==> id.len() == 32)
        &&& names_distinct(self.extensions)
        &&& within_depth(self.nested_part, depth)
    }

    /// Whether the envelope can be held and read with the bound on the nesting that is used
    /// where none is given.
    pub open spec fn wf(self) -> bool {
        self.wf_within(MAX_NESTING_DEPTH as nat)
    }
}

/// The root record of a message.
#[derive(Debug, PartialEq, Eq)]
pub struct MimiContent {
    salt: MimiContentSalt,
    pub replaces: Option<MessageId>,
    pub topic_id: Bstr,
    pub expires: Option<Expiration>,
    pub in_reply_to: Option<MessageId>,
    pub extensions: IndexMap<Name, ExtensionValue>,
    pub nested_part: NestedPart,
}

/// The view of an identifier that may be missing.
pub open spec fn optional_id_view(id: Option<MessageId>) -> Option<Seq<u8>> {
    match id {
        Some(id) => Some(id@),
        None => None,
    }
}

/// The view of a borrowed identifier that may be missing.
pub open spec fn optional_id_ref_view(id: Option<MessageIdRef>) -> Option<Seq<u8>> {
    match id {
        Some(id) => Some(id@),
        None => None,
    }
}

impl View for MimiContent {
    type V = MimiContentView;

    closed spec fn view(&self) -> MimiContentView {
        MimiContentView {
            salt: self.salt@,
            replaces: optional_id_view(self.replaces),
            topic_id: self.topic_id@,
            expires: self.expires,
            in_reply_to: optional_id_view(self.in_reply_to),
            extensions: extension_entries(self.extensions),
            nested_part: self.nested_part@,
        }
    }
}

/// A borrowed content envelope. The extensions are lent as they are, in the map of the owner.
#[derive(Debug, PartialEq, Eq)]
pub struct MimiContentRef<'a> {
    pub salt: &'a MimiContentSalt,
    pub replaces: Option<MessageIdRef<'a>>,
    pub topic_id: BstrRef<'a>,
    pub expires: Option<&'a Expiration>,
    pub in_reply_to: Option<MessageIdRef<'a>>,
    pub extensions: &'a IndexMap<Name, ExtensionValue>,
    pub nested_part: NestedPartRef<'a>,
}

impl<'a> View for MimiContentRef<'a> {
    type V = MimiContentView;

    open spec fn view(&self) -> MimiContentView {
        MimiContentView {
            salt: self.salt@,
            replaces: optional_id_ref_view(self.replaces),
            topic_id: self.topic_id@,
            expires: match self.expires {
                Some(expires) => Some(*expires),
                None => None,
            },
            in_reply_to: optional_id_ref_view(self.in_reply_to),
            extensions: extension_entries(*self.extensions),
            nested_part: self.nested_part@,
        }
    }
}

impl<'a> Clone for MimiContentRef<'a> {
    fn clone(&self) -> (copy: Self)
        ensures
            copy@ == self@,
    {
        MimiContentRef {
            salt: self.salt,
            replaces: self.replaces,
            topic_id: self.topic_id.clone(),
            expires: self.expires,
            in_reply_to: self.in_reply_to,
            extensions: self.extensions,
            nested_part: self.nested_part.clone(),
        }
    }
}

/// The CBOR tree of an identifier that may be missing: `null` where it is.
pub open spec fn encode_optional_id(id: Option<Seq<u8>>) -> CborModel {
    match id {
        Some(bytes) => CborModel::Bytes(bytes),
        None => CborModel::Null,
    }
}

/// The CBOR tree of an expiration that may be missing: `null` where it is.
pub open spec fn encode_optional_expiration(expiration: Option<Expiration>) -> CborModel {
    match expiration {
        Some(expiration) => encode_expiration(expiration),
        None => CborModel::Null,
    }
}

/// The CBOR tree of a content envelope: an array of the salt, the message replaced, the topic,
/// the expiration, the message replied to, the extensions and the root part.
pub open spec fn encode_content(content: MimiContentView) -> CborModel {
    CborModel::Array(
        seq![
            CborModel::Bytes(content.salt),
            encode_optional_id(content.replaces),
            CborModel::Bytes(content.topic_id),
            encode_optional_expiration(content.expires),
            encode_optional_id(content.in_reply_to),
            encode_entries(content.extensions),
            encode_nested_part(content.nested_part),
        ],
    )
}

/// The identifier, or none, that a CBOR tree stands for.
pub open spec fn decode_optional_id(tree: CborModel) -> Option<Option<Seq<u8>>> {
    if tree is Null {
        Some(None)
    } else {
        match decode_message_id(tree) {
            Some(id) => Some(Some(id)),
            None => None,
        }
    }
}

/// The expiration, or none, that a CBOR tree stands for.
pub open spec fn decode_optional_expiration(tree: CborModel) -> Option<Option<Expiration>> {
    if tree is Null {
        Some(None)
    } else {
        match decode_expiration(tree) {
            Some(expiration) => Some(Some(expiration)),
            None => None,
        }
    }
}

/// The salt that a CBOR tree stands for: a byte string of 16 bytes.
pub open spec fn decode_salt(tree: CborModel) -> Option<Seq<u8>> {
    match tree {
        CborModel::Bytes(bytes) => if bytes.len() == 16 {
            Some(bytes)
        } else {
            None
        },
        _ => None,
    }
}

/// Whether a CBOR tree has the shape of a content envelope with parts nested no deeper than
/// `depth`: an array of exactly seven elements, each of the shape of its field.
pub open spec fn has_content_shape(tree: CborModel, depth: nat) -> bool {
    &&& tree matches CborModel::Array(items)
    &&& items.len() == 7
    &&& decode_salt(items[0]) is Some
    &&& decode_optional_id(items[1]) is Some
    &&& bytes_of(items[2]) is Some
    &&& decode_optional_expiration(items[3]) is Some
    &&& decode_optional_id(items[4]) is Some
    &&& decode_entries(items[5]) is Some
    &&& decode_nested_part(items[6], depth) is Some
}

/// The content envelope that a CBOR tree stands for, its parts read no deeper than `depth`
/// parts, if the tree has the shape of one.
pub open spec fn decode_content_within(tree: CborModel, depth: nat) -> Option<MimiContentView> {
    if has_content_shape(tree, depth) {
        let items = tree->Array_0;
        Some(
            MimiContentView {
                salt: decode_salt(items[0])->0,
                replaces: decode_optional_id(items[1])->0,
                topic_id: bytes_of(items[2])->0,
                expires: decode_optional_expiration(items[3])->0,
                in_reply_to: decode_optional_id(items[4])->0,
                extensions: decode_entries(items[5])->0,
                nested_part: decode_nested_part(items[6], depth)->0,
            },
        )
    } else {
        None
    }
}

/// The content envelope that a CBOR tree stands for, read with the bound on the nesting that
/// is used where none is given.
pub open spec fn decode_content(tree: CborModel) -> Option<MimiContentView> {
    decode_content_within(tree, MAX_NESTING_DEPTH as nat)
}

/// Reading what an expiration is written as gives the expiration back.
pub proof fn decode_expiration_inverts_encode(expiration: Expiration)
    ensures
        decode_expiration(encode_expiration(expiration)) == Some(expiration),
{
}

/// Reading what a content envelope is written as gives the envelope back, whatever envelope
/// can be held and whatever bound on the nesting admits it.
pub proof fn decode_content_inverts_encode(content: MimiContentView, depth: nat)
    requires
        content.wf_within(depth),
    ensures
        decode_content_within(encode_content(content), depth) == Some(content),
{
    decode_entries_inverts_encode(content.extensions);
    decode_inverts_encode(content.nested_part, depth);
}

/// A content envelope that was read can be held, and is nested no deeper than it was read.
pub proof fn decoded_content_wf(tree: CborModel, depth: nat)
    requires
        decode_content_within(tree, depth) is Some,
    ensures
        decode_content_within(tree, depth)->0.wf_within(depth),
{
    let items = tree->Array_0;
    decoded_names_distinct(items[5]->Mapping_0);
    decoded_within_depth(items[6], depth);
}

/// Writing a content envelope that was read, and reading it again, gives the same envelope:
/// the cycle of reading and writing changes nothing after the first reading.
pub proof fn decode_encode_decode_content(tree: CborModel, depth: nat)
    requires
        decode_content_within(tree, depth) is Some,
    ensures
        decode_content_within(encode_content(decode_content_within(tree, depth)->0), depth)
            == decode_content_within(tree, depth),
{
    decoded_content_wf(tree, depth);
    decode_content_inverts_encode(decode_content_within(tree, depth)->0, depth);
}

/// Builds the CBOR value of an identifier that may be missing.
fn encode_optional_id_ref(id: &Option<MessageIdRef<'_>>) -> (value: ciborium::Value)
    ensures
        cbor_model(value) == encode_optional_id(optional_id_ref_view(*id)),
{
    match id {
        Some(id) => id.to_cbor_value(),
        None => cbor_null(),
    }
}

/// Reads an identifier that may be missing.
fn read_optional_id(value: &ciborium::Value) -> (r: Result<Option<MessageId>, MimiContentError>)
    ensures
        match r {
            Ok(id) => decode_optional_id(cbor_model(*value)) == Some(optional_id_view(id)),
            Err(e) => decode_optional_id(cbor_model(*value)) is None && e is DeserializeError,
        },
{
    if value.is_null() {
        Ok(None)
    } else {
        match MessageId::from_cbor_value(value) {
            Ok(id) => Ok(Some(id)),
            Err(e) => Err(e),
        }
    }
}

/// Reads an expiration that may be missing.
fn read_optional_expiration(value: &ciborium::Value) -> (r: Result<
    Option<Expiration>,
    MimiContentError,
>)
    ensures
        match r {
            Ok(expiration) => decode_optional_expiration(cbor_model(*value)) == Some(expiration),
            Err(e) => decode_optional_expiration(cbor_model(*value)) is None
                && e is DeserializeError,
        },
{
    if value.is_null() {
        Ok(None)
    } else {
        match Expiration::from_cbor_value(value) {
            Ok(expiration) => Ok(Some(expiration)),
            Err(e) => Err(e),
        }
    }
}

/// Reads a salt: a byte string of 16 bytes.
fn read_salt(value: &ciborium::Value) -> (r: Result<MimiContentSalt, MimiContentError>)
    ensures
        match r {
            Ok(salt) => decode_salt(cbor_model(*value)) == Some(salt@),
            Err(e) => decode_salt(cbor_model(*value)) is None && e is DeserializeError,
        },
{
    let bytes = match value.as_bytes() {
        Some(bytes) => bytes,
        None => { return malformed("a salt is a byte string"); },
    };
    if bytes.len() != 16 {
        return malformed("a salt has 16 bytes");
    }
    let mut salt = [0u8;16];
    let mut i: usize = 0;
    while i < 16
        invariant
            i <= 16,
            bytes.len() == 16,
            forall|j: int| 0 <= j < i ==> salt@[j] == bytes@[j],
        decreases 16 - i,
    {
        salt[i] = bytes[i];
        i += 1;
    }
    Ok(salt)
}

impl MimiContentSerialize for MimiContentRef<'_> {
    open spec fn cbor(&self) -> CborModel {
        encode_content(self@)
    }

    fn to_cbor_value(&self) -> (value: ciborium::Value) {
        let mut items: Vec<ciborium::Value> = Vec::with_capacity(7);
        items.push(cbor_bytes(slice_to_vec(self.salt.as_slice())));
        items.push(encode_optional_id_ref(&self.replaces));
        items.push(self.topic_id.to_cbor_value());
        items.push(
            match self.expires {
                Some(expires) => expires.to_cbor_value(),
                None => cbor_null(),
            },
        );
        items.push(encode_optional_id_ref(&self.in_reply_to));
        items.push(encode_extensions(self.extensions));
        items.push(self.nested_part.to_cbor_value());
        assert(cbor_models(items@) =~= encode_content(self@)->Array_0);
        cbor_array(items)
    }
}

impl MimiContentSerialize for MimiContent {
    open spec fn cbor(&self) -> CborModel {
        encode_content(self@)
    }

    fn to_cbor_value(&self) -> (value: ciborium::Value) {
        self.as_ref().to_cbor_value()
    }
}

/// Reads a content envelope from a CBOR value, its parts no deeper than `max_depth` parts.
pub fn read_content(value: &ciborium::Value, max_depth: usize) -> (r: Result<
    MimiContent,
    MimiContentError,
>)
    ensures
        match r {
            Ok(content) => decode_content_within(cbor_model(*value), max_depth as nat) == Some(
                content@,
            ),
            Err(e) => decode_content_within(cbor_model(*value), max_depth as nat) is None
                && e is DeserializeError,
        },
{
    let items = match value.as_array() {
        Some(items) => items,
        None => { return malformed("a content envelope is an array"); },
    };
    if items.len() != 7 {
        return malformed("a content envelope has seven elements");
    }
    let salt = read_salt(&items[0])?;
    let replaces = read_optional_id(&items[1])?;
    let topic_id = Bstr::from_cbor_value(&items[2])?;
    let expires = read_optional_expiration(&items[3])?;
    let in_reply_to = read_optional_id(&items[4])?;
    let extensions = read_extensions(&items[5])?;
    let nested_part = read_nested_part(&items[6], max_depth)?;
    Ok(MimiContent { salt, replaces, topic_id, expires, in_reply_to, extensions, nested_part })
}

impl MimiContentDeserialize for MimiContent {
    open spec fn from_cbor(tree: CborModel) -> Option<MimiContentView> {
        decode_content(tree)
    }

    fn from_cbor_value(value: &ciborium::Value) -> (r: Result<Self, MimiContentError>) {
        read_content(value, MAX_NESTING_DEPTH)
    }
}

impl MimiContentAsRef for MimiContent {
    type Target<'a> = MimiContentRef<'a>;

    fn as_ref(&self) -> (r: MimiContentRef<'_>)
        ensures
            r@ == self@,
    {
        MimiContentRef {
            salt: &self.salt,
            replaces: match &self.replaces {
                Some(id) => Some(id.as_ref()),
                None => None,
            },
            topic_id: self.topic_id.as_ref(),
            expires: match &self.expires {
                Some(expires) => Some(expires),
                None => None,
            },
            in_reply_to: match &self.in_reply_to {
                Some(id) => Some(id.as_ref()),
                None => None,
            },
            extensions: &self.extensions,
            nested_part: self.nested_part.as_ref(),
        }
    }
}

/// The bytes of a keyed hash, as `hmac::SimpleHmac` over `sha2::Sha256` computes it.
pub uninterp spec fn hmac_sha256(key: Seq<u8>, data: Seq<u8>) -> Seq<u8>;

/// `hmac::SimpleHmac::<sha2::Sha256>`: `new_from_slice` with the key, which takes a key of
/// any length, `update` with the data, `finalize`, and the 32 bytes of the result.
#[verifier::external_body]
fn hmac_sha256_of(key: &[u8], data: &[u8]) -> (tag: [u8; 32])
    ensures
        tag@ == hmac_sha256(key@, data@),
{
    let mut mac = <hmac::SimpleHmac<sha2::Sha256> as hmac::Mac>::new_from_slice(key).unwrap();
    hmac::Mac::update(&mut mac, data);
    hmac::Mac::finalize(mac).into_bytes().into()
}

/// The franking tag of a content: a keyed hash of the encoded content under its salt.
#[derive(Copy, Clone, Debug, PartialEq, Eq, Hash)]
pub struct FrankingTag(pub [u8; 32]);

impl FrankingTag {
    /// Gives up the 32 bytes of the tag.
    #[inline]
    pub fn into_inner(self) -> (tag: [u8; 32])
        ensures
            tag == self.0,
    {
        self.0
    }

    /// The 32 bytes of the tag, in a vector.
    #[inline]
    pub fn to_vec(self) -> (tag: Vec<u8>)
        ensures
            tag@ == self.0@,
    {
        slice_to_vec(self.0.as_slice())
    }
}

impl MimiContent {
    /// Puts a content together of its fields.
    pub fn new(
        extensions: IndexMap<Name, ExtensionValue>,
        salt: MimiContentSalt,
        topic_id: Bstr,
        expires: Option<Expiration>,
        nested_part: NestedPart,
        replaces: Option<MessageId>,
        in_reply_to: Option<MessageId>,
    ) -> (content: Self)
        ensures
            content@ == (MimiContentView {
                salt: salt@,
                replaces: optional_id_view(replaces),
                topic_id: topic_id@,
                expires,
                in_reply_to: optional_id_view(in_reply_to),
                extensions: extension_entries(extensions),
                nested_part: nested_part@,
            }),
    {
        Self { salt, replaces, topic_id, expires, in_reply_to, extensions, nested_part }
    }

    /// The salt of the content.
    pub fn salt(&self) -> (salt: &MimiContentSalt)
        ensures
            salt@ == self@.salt,
    {
        &self.salt
    }

    /// Looks an extension up by its name and reads its value as a `T`: nothing where the
    /// content has no such extension, nor where its value has not the shape of a `T`.
    pub fn get_extension<T: MimiContentDeserialize>(&self, name: &Name) -> (r: Option<T>)
        ensures
            match r {
                Some(extension) => lookup_entry(self@.extensions, name@) matches Some(tree)
                    && T::from_cbor(tree) == Some(extension@),
                None => lookup_entry(self@.extensions, name@) matches Some(tree) ==> T::from_cbor(
                    tree,
                ) is None,
            },
    {
        match extensions_get(&self.extensions, name) {
            Some(ext_value) => {
                let value = ext_value.to_cbor_value();
                match T::from_cbor_value(&value) {
                    Ok(extension) => Some(extension),
                    Err(_) => None,
                }
            },
            None => None,
        }
    }

    /// The URI of the sender, where the extensions hold one as a text.
    #[inline]
    pub fn get_sender_uri(&self) -> (r: Option<SenderUriExtension>)
        ensures
            match r {
                Some(uri) => lookup_entry(self@.extensions, NameView::Int(1)) == Some(
                    CborModel::Text(uri@),
                ),
                None => !(lookup_entry(self@.extensions, NameView::Int(1)) matches Some(tree)
                    && tree is Text),
            },
    {
        self.get_extension(&SenderUriExtension::extension_key())
    }

    /// The URI of the room, where the extensions hold one as a text.
    #[inline]
    pub fn get_room_uri(&self) -> (r: Option<RoomUriExtension>)
        ensures
            match r {
                Some(uri) => lookup_entry(self@.extensions, NameView::Int(2)) == Some(
                    CborModel::Text(uri@),
                ),
                None => !(lookup_entry(self@.extensions, NameView::Int(2)) matches Some(tree)
                    && tree is Text),
            },
    {
        self.get_extension(&RoomUriExtension::extension_key())
    }

    /// Hashes the CBOR bytes of `self`: `digest` is fed the bytes, and what it gives back is
    /// the hash.
    pub fn hash<F: FnOnce(&[u8]) -> Vec<u8>>(&self, digest: F) -> (r: Result<
        Bstr,
        MimiContentError,
    >)
        requires
            forall|input: &[u8]| call_requires(digest, (input,)),
        ensures
            match r {
                Ok(hash) => cbor_encoding(self.cbor()) matches Some(bytes) && exists|
                    fed: &[u8],
                    output: Vec<u8>,
                |
                    fed@ == bytes && call_ensures(digest, (fed,), output) && hash@ == output@,
                Err(e) => cbor_encoding(self.cbor()) is None && e is SerializeError,
            },
    {
        let bytes = self.to_cbor_bytes()?;
        let output = digest(bytes.as_slice());
        Ok(Bstr::from(output))
    }

    /// Calculation of the franking_tag as described in mimi-protocol:
    /// <https://www.ietf.org/archive/id/draft-ietf-mimi-protocol-03.html#name-client-creation-and-sending>
    ///
    /// The tag is the HMAC-SHA-256 of the encoded content, keyed with the salt.
    pub fn calculate_franking_tag(&self) -> (r: Result<FrankingTag, MimiContentError>)
        ensures
            match r {
                Ok(tag) => cbor_encoding(self.cbor()) matches Some(bytes) && tag.0@ == hmac_sha256(
                    self@.salt,
                    bytes,
                ),
                Err(e) => cbor_encoding(self.cbor()) is None && e is SerializeError,
            },
    {
        let bytes = self.to_cbor_bytes()?;
        Ok(FrankingTag(hmac_sha256_of(self.salt.as_slice(), bytes.as_slice())))
    }

    /// Fetch the topic id, returning `None` if the
    /// field is empty
    pub fn topic_id(&self) -> (r: Option<&Bstr>)
        ensures
            match r {
                Some(topic_id) => topic_id@ == self@.topic_id && self@.topic_id.len() > 0,
                None => self@.topic_id.len() == 0,
            },
    {
        if self.topic_id.len() == 0 {
            None
        } else {
            Some(&self.topic_id)
        }
    }
}

impl Clone for MimiContent {
    fn clone(&self) -> (copy: Self)
        ensures
            copy@ == self@,
    {
        MimiContent {
            salt: self.salt,
            replaces: self.replaces,
            topic_id: self.topic_id.clone(),
            expires: self.expires,
            in_reply_to: self.in_reply_to,
            extensions: extensions_clone(&self.extensions),
            nested_part: self.nested_part.clone(),
        }
    }
}

impl Default for MimiContent {
    /// An empty content: a salt of zeros, no topic, no extension, and an empty part.
    fn default() -> (content: Self)
        ensures
            content@.salt == Seq::new(16, |i: int| 0u8),
            content@.replaces is None,
            content@.topic_id == Seq::<u8>::empty(),
            content@.expires is None,
            content@.in_reply_to is None,
            content@.extensions == Seq::<(NameView, CborModel)>::empty(),
            content@.nested_part.disposition == 0,
            content@.nested_part.language == "en"@,
            content@.nested_part.part_content is NullPart,
    {
        let content = MimiContent {
            salt: [0u8;16],
            replaces: None,
            topic_id: Bstr::default(),
            expires: None,
            in_reply_to: None,
            extensions: extensions_new(),
            nested_part: NestedPart::default(),
        };
        content
    }
}

/// A content and its borrowed mirror are written as the same tree, and so as the same bytes.
pub proof fn content_mirror_encodes_alike(content: MimiContent, mirror: MimiContentRef)
    requires
        mirror@ == content@,
    ensures
        mirror.cbor() == content.cbor(),
        cbor_encoding(mirror.cbor()) == cbor_encoding(content.cbor()),
{
}

} // verus!
