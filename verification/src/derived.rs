//! The values that a receiving system derives for a message.

use crate::cbor::{
    cbor_array, cbor_encoding, cbor_models, cbor_tagged, cbor_unsigned, CborModel,
};
use crate::common::{Bstr, BstrRef, Tstr, TstrRef};
use crate::error::MimiContentError;
use crate::extensions::{
    decode_entries, decode_entries_inverts_encode, encode_entries, encode_extensions,
    extension_entries, extensions_clone, names_distinct, read_extensions, Entries, ExtensionValue,
    Name,
};
use crate::message_id::{decode_message_id, MessageId, MessageIdRef};
use crate::reading::{bytes_of, malformed, read_uint, text_of, uint_of};
use crate::traits::{MimiContentAsRef, MimiContentDeserialize, MimiContentSerialize};
use indexmap::IndexMap;
use vstd::prelude::*;

verus! {

/// The URI of a client, a user or a room.
pub type MsgUri = Tstr;

/// A borrowed URI.
pub type MsgUriRef<'a> = TstrRef<'a>;

/// The tag number under which an extended time is written.
pub const EXTENDED_TIME_TAG: u64 = 1001;

/// A point in time, as a specification sees it.
pub enum TimestampView {
    MsecsSinceEpoch(u64),
    ExtendedTime(Entries),
}

/// A point in time: milliseconds since the epoch, or the map of an extended time, which is
/// kept as it came.
#[derive(Debug, PartialEq, Eq)]
pub enum Timestamp {
    MsecsSinceEpoch(u64),
    ExtendedTime(IndexMap<Name, ExtensionValue>),
}

impl View for Timestamp {
    type V = TimestampView;

    open spec fn view(&self) -> TimestampView {
        match self {
            Timestamp::MsecsSinceEpoch(msecs) => TimestampView::MsecsSinceEpoch(*msecs),
            Timestamp::ExtendedTime(map) => TimestampView::ExtendedTime(extension_entries(*map)),
        }
    }
}

impl Clone for Timestamp {
    fn clone(&self) -> (copy: Self)
        ensures
            copy@ == self@,
    {
        match self {
            Timestamp::MsecsSinceEpoch(msecs) => Timestamp::MsecsSinceEpoch(*msecs),
            Timestamp::ExtendedTime(map) => Timestamp::ExtendedTime(extensions_clone(map)),
        }
    }
}

/// The CBOR tree of a point in time: an integer, or a map under the tag 1001.
pub open spec fn encode_timestamp(timestamp: TimestampView) -> CborModel {
    match timestamp {
        TimestampView::MsecsSinceEpoch(msecs) => CborModel::Integer(msecs as int),
        TimestampView::ExtendedTime(entries) => CborModel::Tagged(
            1001,
            Box::new(encode_entries(entries)),
        ),
    }
}

/// The point in time that a CBOR tree stands for.
pub open spec fn decode_timestamp(tree: CborModel) -> Option<TimestampView> {
    match tree {
        CborModel::Integer(n) => if 0 <= n <= u64::MAX {
            Some(TimestampView::MsecsSinceEpoch(n as u64))
        } else {
            None
        },
        CborModel::Tagged(tag, inner) => if tag == 1001 {
            match decode_entries(*inner) {
                Some(entries) => Some(TimestampView::ExtendedTime(entries)),
                None => None,
            }
        } else {
            None
        },
        _ => None,
    }
}

impl MimiContentSerialize for Timestamp {
    open spec fn cbor(&self) -> CborModel {
        encode_timestamp(self@)
    }

    fn to_cbor_value(&self) -> (value: ciborium::Value) {
        match self {
            Timestamp::MsecsSinceEpoch(msecs) => cbor_unsigned(*msecs),
            Timestamp::ExtendedTime(map) => cbor_tagged(EXTENDED_TIME_TAG, encode_extensions(map)),
        }
    }
}

impl MimiContentDeserialize for Timestamp {
    open spec fn from_cbor(tree: CborModel) -> Option<TimestampView> {
        decode_timestamp(tree)
    }

    fn from_cbor_value(value: &ciborium::Value) -> (r: Result<Self, MimiContentError>) {
        match value.as_tag() {
            Some((tag, inner)) => {
                if tag != EXTENDED_TIME_TAG {
                    return malformed("an extended time stands under the tag 1001");
                }
                match read_extensions(inner) {
                    Ok(map) => Ok(Timestamp::ExtendedTime(map)),
                    Err(e) => Err(e),
                }
            },
            None => match read_uint(value, u64::MAX) {
                Some(msecs) => Ok(Timestamp::MsecsSinceEpoch(msecs)),
                None => malformed("a timestamp is an unsigned integer or an extended time"),
            },
        }
    }
}

/// The derived values of a message, as a specification sees them.
pub struct MessageDerivedValuesView {
    pub message_id: Seq<u8>,
    pub hub_accepted_timestamp: TimestampView,
    pub mls_group_id: Seq<u8>,
    pub sender_leaf_index: u32,
    pub sender_client_url: Seq<char>,
    pub sender_user_url: Seq<char>,
    pub room_url: Seq<char>,
}

/// What a receiving system derives for a message.
#[derive(Debug)]
pub struct MessageDerivedValues {
    pub message_id: MessageId,
    pub hub_accepted_timestamp: Timestamp,
    pub mls_group_id: Bstr,
    pub sender_leaf_index: u32,
    pub sender_client_url: MsgUri,
    pub sender_user_url: MsgUri,
    pub room_url: MsgUri,
}

impl View for MessageDerivedValues {
    type V = MessageDerivedValuesView;

    open spec fn view(&self) -> MessageDerivedValuesView {
        MessageDerivedValuesView {
            message_id: self.message_id@,
            hub_accepted_timestamp: self.hub_accepted_timestamp@,
            mls_group_id: self.mls_group_id@,
            sender_leaf_index: self.sender_leaf_index,
            sender_client_url: self.sender_client_url@,
            sender_user_url: self.sender_user_url@,
            room_url: self.room_url@,
        }
    }
}

/// The borrowed derived values of a message.
#[derive(Debug)]
pub struct MessageDerivedValuesRef<'a> {
    pub message_id: MessageIdRef<'a>,
    pub hub_accepted_timestamp: &'a Timestamp,
    pub mls_group_id: BstrRef<'a>,
    pub sender_leaf_index: &'a u32,
    pub sender_client_url: MsgUriRef<'a>,
    pub sender_user_url: MsgUriRef<'a>,
    pub room_url: MsgUriRef<'a>,
}

impl<'a> View for MessageDerivedValuesRef<'a> {
    type V = MessageDerivedValuesView;

    open spec fn view(&self) -> MessageDerivedValuesView {
        MessageDerivedValuesView {
            message_id: self.message_id@,
            hub_accepted_timestamp: self.hub_accepted_timestamp@,
            mls_group_id: self.mls_group_id@,
            sender_leaf_index: *self.sender_leaf_index,
            sender_client_url: self.sender_client_url@,
            sender_user_url: self.sender_user_url@,
            room_url: self.room_url@,
        }
    }
}

impl Clone for MessageDerivedValues {
    fn clone(&self) -> (copy: Self)
        ensures
            copy@ == self@,
    {
        MessageDerivedValues {
            message_id: self.message_id,
            hub_accepted_timestamp: self.hub_accepted_timestamp.clone(),
            mls_group_id: self.mls_group_id.clone(),
            sender_leaf_index: self.sender_leaf_index,
            sender_client_url: self.sender_client_url.clone(),
            sender_user_url: self.sender_user_url.clone(),
            room_url: self.room_url.clone(),
        }
    }
}

impl<'a> Clone for MessageDerivedValuesRef<'a> {
    fn clone(&self) -> (copy: Self)
        ensures
            copy@ == self@,
    {
        MessageDerivedValuesRef {
            message_id: self.message_id,
            hub_accepted_timestamp: self.hub_accepted_timestamp,
            mls_group_id: self.mls_group_id.clone(),
            sender_leaf_index: self.sender_leaf_index,
            sender_client_url: self.sender_client_url.clone(),
            sender_user_url: self.sender_user_url.clone(),
            room_url: self.room_url.clone(),
        }
    }
}

impl MimiContentAsRef for MessageDerivedValues {
    type Target<'a> = MessageDerivedValuesRef<'a>;

    fn as_ref(&self) -> (r: MessageDerivedValuesRef<'_>)
        ensures
            r@ == self@,
    {
        MessageDerivedValuesRef {
            message_id: self.message_id.as_ref(),
            hub_accepted_timestamp: &self.hub_accepted_timestamp,
            mls_group_id: self.mls_group_id.as_ref(),
            sender_leaf_index: &self.sender_leaf_index,
            sender_client_url: self.sender_client_url.as_ref(),
            sender_user_url: self.sender_user_url.as_ref(),
            room_url: self.room_url.as_ref(),
        }
    }
}

/// The CBOR tree of the derived values: an array of the seven of them.
pub open spec fn encode_derived(values: MessageDerivedValuesView) -> CborModel {
    CborModel::Array(
        seq![
            CborModel::Bytes(values.message_id),
            encode_timestamp(values.hub_accepted_timestamp),
            CborModel::Bytes(values.mls_group_id),
            CborModel::Integer(values.sender_leaf_index as int),
            CborModel::Text(values.sender_client_url),
            CborModel::Text(values.sender_user_url),
            CborModel::Text(values.room_url),
        ],
    )
}

/// Whether a CBOR tree has the shape of derived values: an array of exactly seven elements,
/// each of the shape of its field.
pub open spec fn has_derived_shape(tree: CborModel) -> bool {
    &&& tree matches CborModel::Array(items)
    &&& items.len() == 7
    &&& decode_message_id(items[0]) is Some
    &&& decode_timestamp(items[1]) is Some
    &&& bytes_of(items[2]) is Some
    &&& uint_of(items[3], u32::MAX as int) is Some
    &&& text_of(items[4]) is Some
    &&& text_of(items[5]) is Some
    &&& text_of(items[6]) is Some
}

/// The derived values that a CBOR tree stands for, if the tree has the shape of them.
pub open spec fn decode_derived(tree: CborModel) -> Option<MessageDerivedValuesView> {
    if has_derived_shape(tree) {
        let items = tree->Array_0;
        Some(
            MessageDerivedValuesView {
                message_id: decode_message_id(items[0])->0,
                hub_accepted_timestamp: decode_timestamp(items[1])->0,
                mls_group_id: bytes_of(items[2])->0,
                sender_leaf_index: uint_of(items[3], u32::MAX as int)->0 as u32,
                sender_client_url: text_of(items[4])->0,
                sender_user_url: text_of(items[5])->0,
                room_url: text_of(items[6])->0,
            },
        )
    } else {
        None
    }
}

impl MimiContentSerialize for MessageDerivedValuesRef<'_> {
    open spec fn cbor(&self) -> CborModel {
        encode_derived(self@)
    }

    fn to_cbor_value(&self) -> (value: ciborium::Value) {
        let mut items: Vec<ciborium::Value> = Vec::with_capacity(7);
        items.push(self.message_id.to_cbor_value());
        items.push(self.hub_accepted_timestamp.to_cbor_value());
        items.push(self.mls_group_id.to_cbor_value());
        items.push(cbor_unsigned(*self.sender_leaf_index as u64));
        items.push(self.sender_client_url.to_cbor_value());
        items.push(self.sender_user_url.to_cbor_value());
        items.push(self.room_url.to_cbor_value());
        assert(cbor_models(items@) =~= encode_derived(self@)->Array_0);
        cbor_array(items)
    }
}

impl MimiContentSerialize for MessageDerivedValues {
    open spec fn cbor(&self) -> CborModel {
        encode_derived(self@)
    }

    fn to_cbor_value(&self) -> (value: ciborium::Value) {
        self.as_ref().to_cbor_value()
    }
}

impl MimiContentDeserialize for MessageDerivedValues {
    open spec fn from_cbor(tree: CborModel) -> Option<MessageDerivedValuesView> {
        decode_derived(tree)
    }

    fn from_cbor_value(value: &ciborium::Value) -> (r: Result<Self, MimiContentError>) {
        let items = match value.as_array() {
            Some(items) => items,
            None => { return malformed("the derived values are an array"); },
        };
        if items.len() != 7 {
            return malformed("the derived values have seven elements");
        }
        let message_id = MessageId::from_cbor_value(&items[0])?;
        let hub_accepted_timestamp = Timestamp::from_cbor_value(&items[1])?;
        let mls_group_id = Bstr::from_cbor_value(&items[2])?;
        let sender_leaf_index = match read_uint(&items[3], u32::MAX as u64) {
            Some(index) => index as u32,
            None => { return malformed("the leaf index is an unsigned integer of 32 bits"); },
        };
        let sender_client_url = Tstr::from_cbor_value(&items[4])?;
        let sender_user_url = Tstr::from_cbor_value(&items[5])?;
        let room_url = Tstr::from_cbor_value(&items[6])?;
        Ok(
            MessageDerivedValues {
                message_id,
                hub_accepted_timestamp,
                mls_group_id,
                sender_leaf_index,
                sender_client_url,
                sender_user_url,
                room_url,
            },
        )
    }
}

/// Reading what a point in time is written as gives it back, as long as no name occurs
/// twice in the map of an extended time.
pub proof fn decode_timestamp_inverts_encode(timestamp: TimestampView)
    requires
        timestamp matches TimestampView::ExtendedTime(entries) ==> names_distinct(entries),
    ensures
        decode_timestamp(encode_timestamp(timestamp)) == Some(timestamp),
{
    match timestamp {
        TimestampView::ExtendedTime(entries) => {
            decode_entries_inverts_encode(entries);
        },
        _ => {},
    }
}

/// Reading what derived values are written as gives them back, as long as the identifier has
/// 32 bytes and no name occurs twice in the map of an extended time.
pub proof fn decode_derived_inverts_encode(values: MessageDerivedValuesView)
    requires
        values.message_id.len() == 32,
        values.hub_accepted_timestamp matches TimestampView::ExtendedTime(entries)
            ==> names_distinct(entries),
    ensures
        decode_derived(encode_derived(values)) == Some(values),
{
    decode_timestamp_inverts_encode(values.hub_accepted_timestamp);
}

/// Derived values and their borrowed mirror are written as the same tree, and so as the same
/// bytes.
pub proof fn derived_mirror_encodes_alike(
    values: MessageDerivedValues,
    mirror: MessageDerivedValuesRef,
)
    requires
        mirror@ == values@,
    ensures
        mirror.cbor() == values.cbor(),
        cbor_encoding(mirror.cbor()) == cbor_encoding(values.cbor()),
{
}

} // verus!
