//! The identifier of a message: one byte that names a hash algorithm, and 31 bytes of a digest
//! over the sender, the room, the encoded content and the salt of the content.

use crate::cbor::{cbor_bytes, cbor_encoding, CborModel};
use crate::common::TstrRef;
use crate::content::{encode_content, MimiContent, MimiContentView};
use crate::error::MimiContentError;
use crate::reading::malformed;
use crate::traits::{MimiContentAsRef, MimiContentDeserialize, MimiContentSerialize};
use sha2::Digest;
use vstd::prelude::*;
use vstd::slice::slice_to_vec;

verus! {

const MESSAGE_ID_SIZE: usize = 32;

/// The code of SHA-256 in the first byte of a message identifier.
pub const SHA256_HASH_ALG: u8 = 0x01;

/// The identifier of a message: 32 bytes, of which the first names a hash algorithm.
///
/// See <https://www.ietf.org/archive/id/draft-ietf-mimi-content-04.html#name-message-id-and-accepted-tim>
#[derive(Debug, Copy, Clone, PartialEq, Eq)]
pub struct MessageId([u8; MESSAGE_ID_SIZE]);

/// A borrowed message identifier.
#[derive(Debug, Copy, Clone, PartialEq, Eq)]
pub struct MessageIdRef<'a>(&'a [u8; MESSAGE_ID_SIZE]);

impl View for MessageId {
    type V = Seq<u8>;

    closed spec fn view(&self) -> Seq<u8> {
        self.0@
    }
}

impl<'a> View for MessageIdRef<'a> {
    type V = Seq<u8>;

    closed spec fn view(&self) -> Seq<u8> {
        self.0@
    }
}

/// A message identifier has 32 bytes.
pub proof fn message_id_len(id: MessageId)
    ensures
        id@.len() == 32,
{
}

/// A borrowed message identifier has 32 bytes.
pub proof fn message_id_ref_len(id: MessageIdRef)
    ensures
        id@.len() == 32,
{
}

impl MimiContentAsRef for MessageId {
    type Target<'a> = MessageIdRef<'a>;

    fn as_ref(&self) -> (r: MessageIdRef<'_>)
        ensures
            r@ == self@,
    {
        MessageIdRef(&self.0)
    }
}

impl std::ops::Deref for MessageId {
    type Target = [u8; MESSAGE_ID_SIZE];

    fn deref(&self) -> (bytes: &[u8; MESSAGE_ID_SIZE])
        ensures
            bytes@ == self@,
    {
        &self.0
    }
}

impl std::ops::Deref for MessageIdRef<'_> {
    type Target = [u8; MESSAGE_ID_SIZE];

    fn deref(&self) -> (bytes: &[u8; MESSAGE_ID_SIZE])
        ensures
            bytes@ == self@,
    {
        self.0
    }
}

impl MessageIdRef<'_> {
    /// Returns the hash algorithm (`0x01` for SHA256)
    pub fn hash_alg(&self) -> (alg: u8)
        ensures
            alg == self@[0],
    {
        self.0[0]
    }
}

/// The bytes of the identifier made of an algorithm code and a digest: the code, then the
/// first 31 bytes of the digest, then zeros where the digest is shorter than that.
pub open spec fn message_id_bytes(hash_alg: u8, digest: Seq<u8>) -> Seq<u8> {
    Seq::new(
        32,
        |i: int|
            if i == 0 {
                hash_alg
            } else if i - 1 < digest.len() {
                digest[i - 1]
            } else {
                0u8
            },
    )
}

/// Four parts put one behind the other, as they are fed to a digest function.
pub open spec fn hashed_bytes(
    first: Seq<u8>,
    second: Seq<u8>,
    third: Seq<u8>,
    fourth: Seq<u8>,
) -> Seq<u8> {
    first + second + third + fourth
}

/// The bytes that are hashed for the identifier of a message: the UTF-8 bytes of the sender
/// URI, those of the room URI, the encoded content, and the salt of the content.
pub open spec fn identity_input(
    sender_uri: Seq<char>,
    room_uri: Seq<char>,
    content_bytes: Seq<u8>,
    salt: Seq<u8>,
) -> Seq<u8> {
    hashed_bytes(
        vstd::utf8::encode_utf8(sender_uri),
        vstd::utf8::encode_utf8(room_uri),
        content_bytes,
        salt,
    )
}

/// What is hashed changes with each of its parts: where one part is changed and keeps its
/// length, the bytes that are hashed are others. Whether the digest then is another too is
/// the affair of the digest function.
pub proof fn hashed_bytes_change_with_each_part(
    first: Seq<u8>,
    second: Seq<u8>,
    third: Seq<u8>,
    fourth: Seq<u8>,
    changed: Seq<u8>,
)
    ensures
        changed.len() == first.len() && changed != first ==> hashed_bytes(
            changed,
            second,
            third,
            fourth,
        ) != hashed_bytes(first, second, third, fourth),
        changed.len() == second.len() && changed != second ==> hashed_bytes(
            first,
            changed,
            third,
            fourth,
        ) != hashed_bytes(first, second, third, fourth),
        changed.len() == third.len() && changed != third ==> hashed_bytes(
            first,
            second,
            changed,
            fourth,
        ) != hashed_bytes(first, second, third, fourth),
        changed.len() == fourth.len() && changed != fourth ==> hashed_bytes(
            first,
            second,
            third,
            changed,
        ) != hashed_bytes(first, second, third, fourth),
{
    let whole = hashed_bytes(first, second, third, fourth);
    if changed.len() == first.len() && changed != first {
        let at = differing_index(changed, first);
        assert(hashed_bytes(changed, second, third, fourth)[at] != whole[at]);
    }
    if changed.len() == second.len() && changed != second {
        let at = differing_index(changed, second);
        assert(hashed_bytes(first, changed, third, fourth)[first.len() + at] != whole[first.len()
            + at]);
    }
    if changed.len() == third.len() && changed != third {
        let at = differing_index(changed, third);
        let before = first.len() + second.len();
        assert(hashed_bytes(first, second, changed, fourth)[before + at] != whole[before + at]);
    }
    if changed.len() == fourth.len() && changed != fourth {
        let at = differing_index(changed, fourth);
        let before = first.len() + second.len() + third.len();
        assert(hashed_bytes(first, second, third, changed)[before + at] != whole[before + at]);
    }
}

/// A position at which two sequences of one length differ, if they differ.
proof fn differing_index(a: Seq<u8>, b: Seq<u8>) -> (at: int)
    requires
        a.len() == b.len(),
        a != b,
    ensures
        0 <= at < a.len(),
        a[at] != b[at],
{
    if forall|i: int| 0 <= i < a.len() ==> a[i] == b[i] {
        assert(a =~= b);
    }
    choose|i: int| 0 <= i < a.len() && a[i] != b[i]
}

/// The bytes that are hashed for the identifier of a message of the given content, if the
/// content can be encoded.
pub open spec fn identity_input_of(
    sender_uri: Seq<char>,
    room_uri: Seq<char>,
    content: MimiContentView,
) -> Option<Seq<u8>> {
    match cbor_encoding(encode_content(content)) {
        Some(content_bytes) => Some(
            identity_input(sender_uri, room_uri, content_bytes, content.salt),
        ),
        None => None,
    }
}

/// The identifier that `MessageId::construct` gives for a sender, a room and a content: the
/// code of SHA-256 and the SHA-256 digest of what is hashed, if the content can be encoded.
pub open spec fn constructed_id(
    sender_uri: Seq<char>,
    room_uri: Seq<char>,
    content: MimiContentView,
) -> Option<Seq<u8>> {
    match identity_input_of(sender_uri, room_uri, content) {
        Some(input) => Some(message_id_bytes(0x01, sha256(input))),
        None => None,
    }
}

/// The identifier is a function of the sender, the room and the content with its salt: two
/// contents that a specification cannot tell apart get the same identifier, which has 32 bytes
/// and starts with the code of SHA-256.
pub proof fn identity_is_deterministic(
    sender_uri: Seq<char>,
    room_uri: Seq<char>,
    first: MimiContent,
    second: MimiContent,
)
    requires
        first@ == second@,
    ensures
        constructed_id(sender_uri, room_uri, first@) == constructed_id(
            sender_uri,
            room_uri,
            second@,
        ),
        constructed_id(sender_uri, room_uri, first@) matches Some(id) ==> id.len() == 32 && id[0]
            == 0x01,
{
}

/// The SHA-256 digest of the given bytes, as `sha2::Sha256` computes it.
pub uninterp spec fn sha256(data: Seq<u8>) -> Seq<u8>;

/// `digest::Digest::digest` of `sha2::Sha256`: the SHA-256 digest of the data.
#[verifier::external_body]
fn sha256_of(data: &[u8]) -> (digest: Vec<u8>)
    ensures
        digest@ == sha256(data@),
{
    sha2::Sha256::digest(data).to_vec()
}

impl MessageId {
    /// Construct a MessageId using [`sha2::Sha256`].
    ///
    /// # Arguments
    ///
    /// * `sender_uri` - The sender's MIMI URI as a valid UTF-8 string
    /// * `room_uri` - The room's MIMI URI as a valid UTF-8 string
    /// * `mimi_content` - The MIMI-content message serialized as CBOR
    ///
    /// The identifier is the code `0x01` and the first 31 bytes of the SHA-256 digest of the
    /// sender URI, the room URI, the encoded content and its salt. It is there exactly where
    /// the content can be encoded.
    pub fn construct(sender_uri: TstrRef, room_uri: TstrRef, mimi_content: &MimiContent) -> (r:
        Result<Self, MimiContentError>)
        ensures
            match r {
                Ok(id) => constructed_id(sender_uri@, room_uri@, mimi_content@) == Some(id@),
                Err(e) => constructed_id(sender_uri@, room_uri@, mimi_content@) is None
                    && e is SerializeError,
            },
    {
        Self::construct_with_custom_alg(
            SHA256_HASH_ALG,
            sender_uri,
            room_uri,
            mimi_content,
            sha256_of,
        )
    }

    /// Construct a MessageId with a custom algorithm (for example one that doesn't have a
    /// well-known OID): `digest` is fed what is to be hashed, and what it gives back is taken
    /// for the digest.
    ///
    /// Nothing checks that `hash_alg` is the code of the algorithm that `digest` computes.
    pub fn construct_with_custom_alg<F: FnOnce(&[u8]) -> Vec<u8>>(
        hash_alg: u8,
        sender_uri: TstrRef,
        room_uri: TstrRef,
        mimi_content: &MimiContent,
        digest: F,
    ) -> (r: Result<Self, MimiContentError>)
        requires
            forall|input: &[u8]| call_requires(digest, (input,)),
        ensures
            match r {
                Ok(id) => identity_input_of(sender_uri@, room_uri@, mimi_content@) matches Some(
                    input,
                ) && exists|fed: &[u8], output: Vec<u8>|
                    fed@ == input && call_ensures(digest, (fed,), output) && id@
                        == message_id_bytes(hash_alg, output@),
                Err(e) => identity_input_of(sender_uri@, room_uri@, mimi_content@) is None
                    && e is SerializeError,
            },
    {
        let input = Self::identity_input(sender_uri, room_uri, mimi_content)?;
        let output = digest(input.as_slice());
        Ok(Self::from_digest(hash_alg, output.as_slice()))
    }

    /// The bytes that a digest function is to be fed for the identifier of a message.
    pub fn identity_input(sender_uri: TstrRef, room_uri: TstrRef, mimi_content: &MimiContent) -> (r:
        Result<Vec<u8>, MimiContentError>)
        ensures
            match r {
                Ok(input) => identity_input_of(sender_uri@, room_uri@, mimi_content@) == Some(
                    input@,
                ),
                Err(e) => identity_input_of(sender_uri@, room_uri@, mimi_content@) is None
                    && e is SerializeError,
            },
    {
        let mut input = slice_to_vec(sender_uri.as_bytes());
        let mut room = slice_to_vec(room_uri.as_bytes());
        let mut mimi_content_bytes = mimi_content.to_cbor_bytes()?;
        let mut salt = slice_to_vec(mimi_content.salt().as_slice());
        input.append(&mut room);
        input.append(&mut mimi_content_bytes);
        input.append(&mut salt);
        Ok(input)
    }

    /// Makes an identifier of the code of a hash algorithm and a digest: the digest is cut
    /// to 31 bytes, or filled up with zeros where it is shorter.
    ///
    /// Nothing checks that the code is that of the algorithm that made the digest.
    pub fn from_digest(hash_alg: u8, digest: &[u8]) -> (id: Self)
        ensures
            id@ == message_id_bytes(hash_alg, digest@),
    {
        let digest_read_len = if digest.len() < MESSAGE_ID_SIZE - 1 {
            digest.len()
        } else {
            MESSAGE_ID_SIZE - 1
        };
        let mut message_id = [0u8;32];
        // Set HashAlg
        message_id[0] = hash_alg;
        // Write the truncated hash output
        let mut i: usize = 0;
        while i < digest_read_len
            invariant
                i <= digest_read_len,
                digest_read_len <= 31,
                digest_read_len <= digest.len(),
                message_id@[0] == hash_alg,
                forall|j: int| 0 <= j < i ==> message_id@[j + 1] == digest@[j],
                forall|j: int| i < j < 32 ==> message_id@[j] == 0,
            decreases digest_read_len - i,
        {
            message_id[i + 1] = digest[i];
            i += 1;
        }
        Self::from_raw_unchecked(message_id)
    }

    /// Takes 32 bytes as an identifier, whatever they hold.
    pub fn from_raw_unchecked(raw_message_id: [u8; MESSAGE_ID_SIZE]) -> (id: Self)
        ensures
            id@ == raw_message_id@,
    {
        Self(raw_message_id)
    }
}

/// An identifier made of a code and a digest has 32 bytes, whatever the length of the digest.
/// Its first byte is the code; the bytes of the digest follow, as far as there is room for
/// them, and zeros fill the rest.
pub proof fn message_id_bytes_shape(hash_alg: u8, digest: Seq<u8>)
    ensures
        message_id_bytes(hash_alg, digest).len() == 32,
        message_id_bytes(hash_alg, digest)[0] == hash_alg,
        forall|i: int|
            1 <= i < 32 && i - 1 < digest.len() ==> #[trigger] message_id_bytes(hash_alg, digest)[i]
                == digest[i - 1],
        forall|i: int|
            1 <= i < 32 && i - 1 >= digest.len() ==> #[trigger] message_id_bytes(
                hash_alg,
                digest,
            )[i] == 0,
{
}

/// The identifier that a CBOR tree stands for: a byte string of 32 bytes.
pub open spec fn decode_message_id(tree: CborModel) -> Option<Seq<u8>> {
    match tree {
        CborModel::Bytes(bytes) => if bytes.len() == 32 {
            Some(bytes)
        } else {
            None
        },
        _ => None,
    }
}

impl MimiContentSerialize for MessageIdRef<'_> {
    open spec fn cbor(&self) -> CborModel {
        CborModel::Bytes(self@)
    }

    fn to_cbor_value(&self) -> (value: ciborium::Value) {
        cbor_bytes(slice_to_vec(self.0.as_slice()))
    }
}

impl MimiContentSerialize for MessageId {
    open spec fn cbor(&self) -> CborModel {
        CborModel::Bytes(self@)
    }

    fn to_cbor_value(&self) -> (value: ciborium::Value) {
        cbor_bytes(slice_to_vec(self.0.as_slice()))
    }
}

impl MimiContentDeserialize for MessageId {
    open spec fn from_cbor(tree: CborModel) -> Option<Seq<u8>> {
        decode_message_id(tree)
    }

    fn from_cbor_value(value: &ciborium::Value) -> (r: Result<Self, MimiContentError>) {
        let bytes = match value.as_bytes() {
            Some(bytes) => bytes,
            None => { return malformed("a message identifier is a byte string"); },
        };
        if bytes.len() != MESSAGE_ID_SIZE {
            return malformed("a message identifier has 32 bytes");
        }
        let mut raw = [0u8;32];
        let mut i: usize = 0;
        while i < MESSAGE_ID_SIZE
            invariant
                i <= 32,
                bytes.len() == 32,
                forall|j: int| 0 <= j < i ==> raw@[j] == bytes@[j],
            decreases 32 - i,
        {
            raw[i] = bytes[i];
            i += 1;
        }
        Ok(MessageId(raw))
    }
}

} // verus!
