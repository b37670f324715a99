//! The delivery report: what became of each of a list of messages.

use crate::cbor::{
    cbor_array, cbor_encoding, cbor_model, cbor_models, cbor_unsigned, CborModel,
};
use crate::error::MimiContentError;
use crate::message_id::{decode_message_id, MessageId, MessageIdRef};
use crate::reading::{malformed, read_uint, uint_of};
use crate::traits::{MimiContentAsRef, MimiContentDeserialize, MimiContentSerialize};
use vstd::prelude::*;
use vstd::std_specs::convert::FromSpecImpl;

verus! {

/// The statuses that have a name.
#[derive(Debug, Clone, Copy, PartialEq, Eq)]
pub enum MessageBaseStatus {
    Unread,
    Delivered,
    Read,
    Expired,
    Deleted,
    Hidden,
    Error,
}

impl MessageBaseStatus {
    /// The number a named status is written as.
    pub open spec fn code(self) -> u8 {
        match self {
            MessageBaseStatus::Unread => 0,
            MessageBaseStatus::Delivered => 1,
            MessageBaseStatus::Read => 2,
            MessageBaseStatus::Expired => 3,
            MessageBaseStatus::Deleted => 4,
            MessageBaseStatus::Hidden => 5,
            MessageBaseStatus::Error => 6,
        }
    }

    /// The number this named status is written as.
    pub fn to_code(self) -> (code: u8)
        ensures
            code == self.code(),
    {
        match self {
            MessageBaseStatus::Unread => 0,
            MessageBaseStatus::Delivered => 1,
            MessageBaseStatus::Read => 2,
            MessageBaseStatus::Expired => 3,
            MessageBaseStatus::Deleted => 4,
            MessageBaseStatus::Hidden => 5,
            MessageBaseStatus::Error => 6,
        }
    }
}

/// The status of a message: a named status, or any other code kept as it came.
#[derive(Debug, Clone, Copy, PartialEq, Eq)]
pub enum MessageStatus {
    Base(MessageBaseStatus),
    Ext(u8),
}

impl MessageStatus {
    /// The status that a code stands for: the named one where the code has a name, the code
    /// itself otherwise.
    pub open spec fn of_code(code: u8) -> MessageStatus {
        match code {
            0 => MessageStatus::Base(MessageBaseStatus::Unread),
            1 => MessageStatus::Base(MessageBaseStatus::Delivered),
            2 => MessageStatus::Base(MessageBaseStatus::Read),
            3 => MessageStatus::Base(MessageBaseStatus::Expired),
            4 => MessageStatus::Base(MessageBaseStatus::Deleted),
            5 => MessageStatus::Base(MessageBaseStatus::Hidden),
            6 => MessageStatus::Base(MessageBaseStatus::Error),
            _ => MessageStatus::Ext(code),
        }
    }

    /// The number a status is written as.
    pub open spec fn code(self) -> u8 {
        match self {
            MessageStatus::Base(base) => base.code(),
            MessageStatus::Ext(code) => code,
        }
    }

    /// The status that a code stands for.
    pub fn from_code(code: u8) -> (status: Self)
        ensures
            status == MessageStatus::of_code(code),
    {
        match code {
            0 => MessageStatus::Base(MessageBaseStatus::Unread),
            1 => MessageStatus::Base(MessageBaseStatus::Delivered),
            2 => MessageStatus::Base(MessageBaseStatus::Read),
            3 => MessageStatus::Base(MessageBaseStatus::Expired),
            4 => MessageStatus::Base(MessageBaseStatus::Deleted),
            5 => MessageStatus::Base(MessageBaseStatus::Hidden),
            6 => MessageStatus::Base(MessageBaseStatus::Error),
            _ => MessageStatus::Ext(code),
        }
    }

    /// The number this status is written as.
    pub fn to_code(self) -> (code: u8)
        ensures
            code == self.code(),
    {
        match self {
            MessageStatus::Base(base_status) => base_status.to_code(),
            MessageStatus::Ext(val) => val,
        }
    }
}

/// A status is seen through its code: two statuses with one code are written alike.
impl View for MessageStatus {
    type V = u8;

    open spec fn view(&self) -> u8 {
        self.code()
    }
}

impl From<u8> for MessageStatus {
    fn from(value: u8) -> (status: Self)
        ensures
            status == MessageStatus::of_code(value),
    {
        MessageStatus::from_code(value)
    }
}

impl FromSpecImpl<u8> for MessageStatus {
    open spec fn obeys_from_spec() -> bool {
        true
    }

    open spec fn from_spec(v: u8) -> Self {
        MessageStatus::of_code(v)
    }
}

impl From<MessageStatus> for u8 {
    fn from(value: MessageStatus) -> (code: u8)
        ensures
            code == value.code(),
    {
        value.to_code()
    }
}

impl FromSpecImpl<MessageStatus> for u8 {
    open spec fn obeys_from_spec() -> bool {
        true
    }

    open spec fn from_spec(v: MessageStatus) -> u8 {
        v.code()
    }
}

/// Every code, taken to its status and back, comes out unchanged; a code with a name becomes
/// the named status, any other is kept in `Ext`.
pub proof fn status_code_round_trip(code: u8)
    ensures
        MessageStatus::of_code(code).code() == code,
        code <= 6 ==> (MessageStatus::of_code(code) matches MessageStatus::Base(base)
            && base.code() == code),
        code > 6 ==> MessageStatus::of_code(code) == MessageStatus::Ext(code),
{
}

/// The status of one message, as a specification sees it. The status is seen as its code.
pub struct PerMessageStatusView {
    pub message_id: Seq<u8>,
    pub status: u8,
}

/// The status of one message.
#[derive(Debug, PartialEq, Eq)]
pub struct PerMessageStatus {
    pub message_id: MessageId,
    pub status: MessageStatus,
}

impl Clone for PerMessageStatus {
    fn clone(&self) -> (copy: Self)
        ensures
            copy == *self,
    {
        PerMessageStatus { message_id: self.message_id, status: self.status }
    }
}

impl View for PerMessageStatus {
    type V = PerMessageStatusView;

    open spec fn view(&self) -> PerMessageStatusView {
        PerMessageStatusView { message_id: self.message_id@, status: self.status@ }
    }
}

/// The borrowed status of one message.
#[derive(Debug, PartialEq, Eq)]
pub struct PerMessageStatusRef<'a> {
    pub message_id: MessageIdRef<'a>,
    pub status: &'a MessageStatus,
}

impl<'a> Clone for PerMessageStatusRef<'a> {
    fn clone(&self) -> (copy: Self)
        ensures
            copy == *self,
    {
        PerMessageStatusRef { message_id: self.message_id, status: self.status }
    }
}

impl<'a> View for PerMessageStatusRef<'a> {
    type V = PerMessageStatusView;

    open spec fn view(&self) -> PerMessageStatusView {
        PerMessageStatusView { message_id: self.message_id@, status: self.status@ }
    }
}

impl MimiContentAsRef for PerMessageStatus {
    type Target<'a> = PerMessageStatusRef<'a>;

    fn as_ref(&self) -> (r: PerMessageStatusRef<'_>)
        ensures
            r@ == self@,
    {
        PerMessageStatusRef { message_id: self.message_id.as_ref(), status: &self.status }
    }
}

/// The CBOR tree of the status of one message: an array of the identifier and the code.
pub open spec fn encode_status(status: PerMessageStatusView) -> CborModel {
    CborModel::Array(
        seq![CborModel::Bytes(status.message_id), CborModel::Integer(status.status as int)],
    )
}

/// The status of one message that a CBOR tree stands for: an array of exactly an identifier
/// and a code of one byte.
pub open spec fn decode_status(tree: CborModel) -> Option<PerMessageStatusView> {
    match tree {
        CborModel::Array(items) => if items.len() != 2 {
            None
        } else {
            match (decode_message_id(items[0]), uint_of(items[1], u8::MAX as int)) {
                (Some(message_id), Some(code)) => Some(
                    PerMessageStatusView { message_id, status: code as u8 },
                ),
                _ => None,
            }
        },
        _ => None,
    }
}

/// The CBOR tree of a report: an array of the statuses, in their order.
pub open spec fn encode_report(report: Seq<PerMessageStatusView>) -> CborModel {
    CborModel::Array(Seq::new(report.len(), |i: int| encode_status(report[i])))
}

/// The report that a CBOR tree stands for: an array of statuses.
pub open spec fn decode_report(tree: CborModel) -> Option<Seq<PerMessageStatusView>> {
    match tree {
        CborModel::Array(items) => if forall|i: int|
            0 <= i < items.len() ==> decode_status(#[trigger] items[i]) is Some {
            Some(Seq::new(items.len(), |i: int| decode_status(items[i])->0))
        } else {
            None
        },
        _ => None,
    }
}

/// Reading what a report is written as gives the report back, as long as each identifier
/// in it has 32 bytes.
pub proof fn decode_report_inverts_encode(report: Seq<PerMessageStatusView>)
    requires
        forall|i: int| 0 <= i < report.len() ==> (#[trigger] report[i]).message_id.len() == 32,
    ensures
        decode_report(encode_report(report)) == Some(report),
{
    let items = encode_report(report)->Array_0;
    assert(forall|i: int|
        0 <= i < items.len() ==> decode_status(#[trigger] items[i]) == Some(report[i]));
    assert(decode_report(encode_report(report))->0 =~= report);
}

impl MimiContentSerialize for PerMessageStatusRef<'_> {
    open spec fn cbor(&self) -> CborModel {
        encode_status(self@)
    }

    fn to_cbor_value(&self) -> (value: ciborium::Value) {
        let mut items: Vec<ciborium::Value> = Vec::with_capacity(2);
        items.push(self.message_id.to_cbor_value());
        items.push(cbor_unsigned(self.status.to_code() as u64));
        assert(cbor_models(items@) =~= encode_status(self@)->Array_0);
        cbor_array(items)
    }
}

impl MimiContentSerialize for PerMessageStatus {
    open spec fn cbor(&self) -> CborModel {
        encode_status(self@)
    }

    fn to_cbor_value(&self) -> (value: ciborium::Value) {
        self.as_ref().to_cbor_value()
    }
}

impl MimiContentDeserialize for PerMessageStatus {
    open spec fn from_cbor(tree: CborModel) -> Option<PerMessageStatusView> {
        decode_status(tree)
    }

    fn from_cbor_value(value: &ciborium::Value) -> (r: Result<Self, MimiContentError>) {
        let items = match value.as_array() {
            Some(items) => items,
            None => { return malformed("the status of a message is an array"); },
        };
        if items.len() != 2 {
            return malformed("the status of a message has two elements");
        }
        let message_id = MessageId::from_cbor_value(&items[0])?;
        let status = match read_uint(&items[1], u8::MAX as u64) {
            Some(code) => MessageStatus::from_code(code as u8),
            None => { return malformed("a status is a code of one byte"); },
        };
        Ok(PerMessageStatus { message_id, status })
    }
}

/// A delivery report: the statuses of a list of messages.
#[derive(Debug, PartialEq, Eq)]
pub struct MessageStatusReport(pub Vec<PerMessageStatus>);

impl Clone for MessageStatusReport {
    fn clone(&self) -> (copy: Self)
        ensures
            copy@ == self@,
    {
        let mut statuses: Vec<PerMessageStatus> = Vec::with_capacity(self.0.len());
        let mut i: usize = 0;
        while i < self.0.len()
            invariant
                i <= self.0.len(),
                statuses.len() == i,
                forall|j: int| 0 <= j < i ==> #[trigger] statuses[j] == self.0[j],
            decreases self.0.len() - i,
        {
            statuses.push(self.0[i].clone());
            i += 1;
        }
        let copy = MessageStatusReport(statuses);
        copy
    }
}

impl View for MessageStatusReport {
    type V = Seq<PerMessageStatusView>;

    open spec fn view(&self) -> Seq<PerMessageStatusView> {
        Seq::new(self.0@.len(), |i: int| self.0@[i]@)
    }
}

/// A borrowed delivery report.
#[derive(Debug, PartialEq, Eq)]
pub struct MessageStatusReportRef<'a>(Vec<PerMessageStatusRef<'a>>);

impl<'a> Clone for MessageStatusReportRef<'a> {
    fn clone(&self) -> (copy: Self)
        ensures
            copy@ == self@,
    {
        let mut statuses: Vec<PerMessageStatusRef<'a>> = Vec::with_capacity(self.0.len());
        let mut i: usize = 0;
        while i < self.0.len()
            invariant
                i <= self.0.len(),
                statuses.len() == i,
                forall|j: int| 0 <= j < i ==> #[trigger] statuses[j] == self.0[j],
            decreases self.0.len() - i,
        {
            statuses.push(self.0[i].clone());
            i += 1;
        }
        let copy = MessageStatusReportRef(statuses);
        copy
    }
}

impl<'a> View for MessageStatusReportRef<'a> {
    type V = Seq<PerMessageStatusView>;

    closed spec fn view(&self) -> Seq<PerMessageStatusView> {
        Seq::new(self.0@.len(), |i: int| self.0@[i]@)
    }
}

impl MimiContentAsRef for MessageStatusReport {
    type Target<'a> = MessageStatusReportRef<'a>;

    fn as_ref(&self) -> (r: MessageStatusReportRef<'_>)
        ensures
            r@ == self@,
    {
        let mut statuses: Vec<PerMessageStatusRef<'_>> = Vec::with_capacity(self.0.len());
        let mut i: usize = 0;
        while i < self.0.len()
            invariant
                i <= self.0.len(),
                statuses.len() == i,
                forall|j: int| 0 <= j < i ==> (#[trigger] statuses[j])@ == self.0[j]@,
            decreases self.0.len() - i,
        {
            statuses.push(self.0[i].as_ref());
            i += 1;
        }
        let r = MessageStatusReportRef(statuses);
        r
    }
}

impl MimiContentSerialize for MessageStatusReportRef<'_> {
    open spec fn cbor(&self) -> CborModel {
        encode_report(self@)
    }

    fn to_cbor_value(&self) -> (value: ciborium::Value) {
        let mut items: Vec<ciborium::Value> = Vec::with_capacity(self.0.len());
        let mut i: usize = 0;
        while i < self.0.len()
            invariant
                i <= self.0.len(),
                items.len() == i,
                forall|j: int|
                    0 <= j < i ==> cbor_model(#[trigger] items[j]) == encode_status(self.0[j]@),
            decreases self.0.len() - i,
        {
            items.push(self.0[i].to_cbor_value());
            i += 1;
        }
        assert(cbor_models(items@) =~= encode_report(self@)->Array_0);
        cbor_array(items)
    }
}

impl MimiContentSerialize for MessageStatusReport {
    open spec fn cbor(&self) -> CborModel {
        encode_report(self@)
    }

    fn to_cbor_value(&self) -> (value: ciborium::Value) {
        self.as_ref().to_cbor_value()
    }
}

impl MimiContentDeserialize for MessageStatusReport {
    open spec fn from_cbor(tree: CborModel) -> Option<Seq<PerMessageStatusView>> {
        decode_report(tree)
    }

    fn from_cbor_value(value: &ciborium::Value) -> (r: Result<Self, MimiContentError>) {
        let items = match value.as_array() {
            Some(items) => items,
            None => { return malformed("a report is an array"); },
        };
        let ghost trees = cbor_models(items@);
        let mut statuses: Vec<PerMessageStatus> = Vec::with_capacity(items.len());
        let mut i: usize = 0;
        while i < items.len()
            invariant
                i <= items.len(),
                statuses.len() == i,
                trees == cbor_models(items@),
                cbor_model(*value) == CborModel::Array(trees),
                forall|j: int|
                    0 <= j < i ==> decode_status(#[trigger] trees[j]) == Some(statuses[j]@),
            decreases items.len() - i,
        {
            match PerMessageStatus::from_cbor_value(&items[i]) {
                Ok(status) => {
                    statuses.push(status);
                },
                Err(e) => {
                    assert(decode_status(trees[i as int]) is None);
                    return Err(e);
                },
            }
            i += 1;
        }
        let report = MessageStatusReport(statuses);
        Ok(report)
    }
}

/// A report and its borrowed mirror are written as the same tree, and so as the same bytes.
pub proof fn report_mirror_encodes_alike(
    report: MessageStatusReport,
    mirror: MessageStatusReportRef,
)
    requires
        mirror@ == report@,
    ensures
        mirror.cbor() == report.cbor(),
        cbor_encoding(mirror.cbor()) == cbor_encoding(report.cbor()),
{
}

} // verus!
