use hmac::Mac;
use mimi_content::{
    BaseDispos, Disposition, FrankingTag, MessageId, MimiContent, MimiContentAsRef,
    MimiContentDeserialize, MimiContentError, MimiContentSerialize, NestedPart, NestedPartContent,
    SinglePart, Tstr,
};
use sha2::Digest;

fn part(content: &[u8]) -> NestedPart {
    NestedPart {
        disposition: Disposition::Base(BaseDispos::Render),
        language: Tstr::from("en"),
        part_content: NestedPartContent::SinglePart(SinglePart {
            content_type: "text/plain".into(),
            content: content.to_vec().into(),
        }),
    }
}

fn envelope(salt: [u8; 16], content: &[u8]) -> MimiContent {
    MimiContent::builder()
        .salt_from_outside_entropy(salt)
        .topic_id(vec![].into())
        .nested_part(part(content))
        .build()
}

fn identifier(sender: &str, room: &str, content: &MimiContent) -> MessageId {
    MessageId::construct(
        Tstr::from(sender).as_ref(),
        Tstr::from(room).as_ref(),
        content,
    )
    .unwrap()
}

const SENDER: &str = "mimi://example.com/u/alice.smith";
const ROOM: &str = "mimi://example.com/r/engineering_team";

#[test]
fn identifier_is_the_same_for_the_same_input() {
    let content = envelope([7; 16], b"Hello World");
    let first = identifier(SENDER, ROOM, &content);
    let second = identifier(SENDER, ROOM, &content);
    assert_eq!(first, second);
    let again = identifier(SENDER, ROOM, &envelope([7; 16], b"Hello World"));
    assert_eq!(first, again);
    let copy = identifier(SENDER, ROOM, &content.clone());
    assert_eq!(first, copy);
}

#[test]
fn identifier_changes_with_one_byte_of_the_sender() {
    let content = envelope([7; 16], b"Hello World");
    let id = identifier(SENDER, ROOM, &content);
    let other = identifier("mimi://example.com/u/alice.smiti", ROOM, &content);
    assert_eq!(other[0], id[0]);
    assert_ne!(other[1..], id[1..]);
}

#[test]
fn identifier_changes_with_one_byte_of_the_room() {
    let content = envelope([7; 16], b"Hello World");
    let id = identifier(SENDER, ROOM, &content);
    let other = identifier(SENDER, "mimi://example.com/r/engineering_teal", &content);
    assert_ne!(other[1..], id[1..]);
}

#[test]
fn identifier_changes_with_one_byte_of_the_content() {
    let id = identifier(SENDER, ROOM, &envelope([7; 16], b"Hello World"));
    let other = identifier(SENDER, ROOM, &envelope([7; 16], b"Hello Worle"));
    assert_ne!(other[1..], id[1..]);
}

#[test]
fn identifier_changes_with_one_byte_of_the_salt() {
    let id = identifier(SENDER, ROOM, &envelope([7; 16], b"Hello World"));
    let mut salt = [7; 16];
    salt[15] = 8;
    let other = identifier(SENDER, ROOM, &envelope(salt, b"Hello World"));
    assert_ne!(other[1..], id[1..]);
}

#[test]
fn identifier_does_not_run_sender_and_room_together_with_the_content() {
    // the parts are hashed one behind the other: what is cut off one and put before the
    // next gives the same input
    let content = envelope([7; 16], b"Hello World");
    let id = identifier("ab", "c", &content);
    let other = identifier("a", "bc", &content);
    assert_eq!(id, other);
}

#[test]
fn identifier_is_the_sha256_digest_cut_to_31_bytes() {
    let content = envelope([9; 16], b"bytes");
    let bytes = content.to_cbor_bytes().unwrap();
    let mut input = vec![];
    input.extend_from_slice(SENDER.as_bytes());
    input.extend_from_slice(ROOM.as_bytes());
    input.extend_from_slice(&bytes);
    input.extend_from_slice(&[9; 16]);
    assert_eq!(
        MessageId::identity_input(
            Tstr::from(SENDER).as_ref(),
            Tstr::from(ROOM).as_ref(),
            &content
        )
        .unwrap(),
        input
    );
    let digest = sha2::Sha256::digest(&input);
    let id = identifier(SENDER, ROOM, &content);
    assert_eq!(id[0], 0x01);
    assert_eq!(&id[1..], &digest[..31]);
    assert_eq!(id, MessageId::from_digest(0x01, &digest));
}

#[test]
fn any_digest_function_can_make_an_identifier() {
    let content = envelope([9; 16], b"bytes");
    let input = MessageId::identity_input(
        Tstr::from(SENDER).as_ref(),
        Tstr::from(ROOM).as_ref(),
        &content,
    )
    .unwrap();

    let id = MessageId::construct_with_custom_alg(
        0x50,
        Tstr::from(SENDER).as_ref(),
        Tstr::from(ROOM).as_ref(),
        &content,
        |input: &[u8]| sha2::Sha512::digest(input).to_vec(),
    )
    .unwrap();
    assert_eq!(id[0], 0x50);
    assert_eq!(&id[1..], &sha2::Sha512::digest(&input)[..31]);

    // a digest of 28 bytes leaves three bytes of zeros
    let id = MessageId::construct_with_custom_alg(
        0x51,
        Tstr::from(SENDER).as_ref(),
        Tstr::from(ROOM).as_ref(),
        &content,
        |input: &[u8]| sha2::Sha224::digest(input).to_vec(),
    )
    .unwrap();
    assert_eq!(id[0], 0x51);
    assert_eq!(&id[1..29], &sha2::Sha224::digest(&input)[..]);
    assert_eq!(&id[29..], &[0u8; 3]);

    // the digest function is fed the input once, whole
    let mut fed = vec![];
    let id = MessageId::construct_with_custom_alg(
        0x52,
        Tstr::from(SENDER).as_ref(),
        Tstr::from(ROOM).as_ref(),
        &content,
        |input: &[u8]| {
            fed.push(input.to_vec());
            vec![0xab; 31]
        },
    )
    .unwrap();
    assert_eq!(fed, vec![input]);
    assert_eq!(&id[1..], &[0xab; 31]);

    let with_sha256 = MessageId::construct_with_custom_alg(
        0x01,
        Tstr::from(SENDER).as_ref(),
        Tstr::from(ROOM).as_ref(),
        &content,
        |input: &[u8]| sha2::Sha256::digest(input).to_vec(),
    )
    .unwrap();
    assert_eq!(with_sha256, identifier(SENDER, ROOM, &content));
}

#[test]
fn hash_of_a_content_is_the_digest_of_its_bytes() {
    let content = envelope([9; 16], b"bytes");
    let bytes = content.to_cbor_bytes().unwrap();
    let hash = content
        .hash(|bytes: &[u8]| sha2::Sha256::digest(bytes).to_vec())
        .unwrap();
    assert_eq!(&*hash, &sha2::Sha256::digest(&bytes)[..]);
    let hash = content
        .hash(|bytes: &[u8]| sha3::Sha3_256::digest(bytes).to_vec())
        .unwrap();
    assert_eq!(&*hash, &sha3::Sha3_256::digest(&bytes)[..]);
    let mut fed = vec![];
    content
        .hash(|bytes: &[u8]| {
            fed.push(bytes.to_vec());
            vec![]
        })
        .unwrap();
    assert_eq!(fed, vec![bytes]);
}

#[test]
fn sha256_of_nothing_is_the_known_digest() {
    // SHA-256 of the empty input begins e3 b0 c4 42
    let id = MessageId::from_digest(1, &sha2::Sha256::digest(b""));
    assert_eq!(&id[..5], &[0x01, 0xe3, 0xb0, 0xc4, 0x42]);
}

#[test]
fn long_digest_is_cut() {
    let digest: Vec<u8> = (1..=64).collect();
    let id = MessageId::from_digest(0x40, &digest);
    assert_eq!(id[0], 0x40);
    assert_eq!(&id[1..], &digest[..31]);
    let exactly: Vec<u8> = (1..=31).collect();
    let id = MessageId::from_digest(0x41, &exactly);
    assert_eq!(&id[1..], &exactly[..]);
}

#[test]
fn short_digest_is_filled_up_with_zeros() {
    let id = MessageId::from_digest(0xff, &[0xaa, 0xbb, 0xcc]);
    let mut expected = [0u8; 32];
    expected[0] = 0xff;
    expected[1] = 0xaa;
    expected[2] = 0xbb;
    expected[3] = 0xcc;
    assert_eq!(*id, expected);
    let id = MessageId::from_digest(0x00, &[]);
    assert_eq!(*id, [0u8; 32]);
}

#[test]
fn raw_bytes_are_taken_as_they_are() {
    let mut raw = [0u8; 32];
    for (i, byte) in raw.iter_mut().enumerate() {
        *byte = i as u8 + 1;
    }
    let id = MessageId::from_raw_unchecked(raw);
    assert_eq!(*id, raw);
    assert_eq!(*id.as_ref(), raw);
    assert_eq!(id.as_ref().hash_alg(), 1);
    assert_eq!(MessageId::from_raw_unchecked([0x42; 32]).as_ref().hash_alg(), 0x42);
}

#[test]
fn identifier_is_written_as_32_bytes() {
    let id = MessageId::from_raw_unchecked([0xab; 32]);
    let mut expected = vec![0x58, 32];
    expected.extend_from_slice(&[0xab; 32]);
    assert_eq!(id.to_cbor_bytes().unwrap(), expected);
    assert_eq!(id.as_ref().to_cbor_bytes().unwrap(), expected);
    assert_eq!(MessageId::from_cbor_bytes(&expected).unwrap(), id);
}

#[test]
fn identifier_of_another_length_is_refused() {
    for length in [0usize, 1, 31, 33, 64] {
        let value = ciborium::Value::Bytes(vec![1; length]);
        assert!(matches!(
            MessageId::from_cbor_value(&value),
            Err(MimiContentError::DeserializeError(_))
        ));
    }
    assert!(matches!(
        MessageId::from_cbor_value(&ciborium::Value::Text("a".repeat(32))),
        Err(MimiContentError::DeserializeError(_))
    ));
    let numbers = ciborium::Value::Array(vec![ciborium::Value::Integer(1.into()); 32]);
    assert!(matches!(
        MessageId::from_cbor_value(&numbers),
        Err(MimiContentError::DeserializeError(_))
    ));
}

#[test]
fn franking_tag_is_the_keyed_hash_of_the_encoded_content() {
    let content = envelope([3; 16], b"Hello World");
    let tag = content.calculate_franking_tag().unwrap();

    let mut mac = hmac::Hmac::<sha2::Sha256>::new_from_slice(&[3; 16]).unwrap();
    mac.update(&content.to_cbor_bytes().unwrap());
    let expected: [u8; 32] = mac.finalize().into_bytes().into();

    assert_eq!(tag, FrankingTag(expected));
    assert_eq!(tag.into_inner(), expected);
    assert_eq!(tag.to_vec(), expected.to_vec());

    let other = envelope([4; 16], b"Hello World").calculate_franking_tag().unwrap();
    assert_ne!(other, tag);
}

#[test]
fn keyed_hash_is_that_of_a_second_implementation() {
    let content = envelope(*b"Jefe\0\0\0\0\0\0\0\0\0\0\0\0", b"what do ya want for nothing?");
    let tag = content.calculate_franking_tag().unwrap();
    let mut mac = hmac::SimpleHmac::<sha2::Sha256>::new_from_slice(b"Jefe\0\0\0\0\0\0\0\0\0\0\0\0")
        .unwrap();
    mac.update(&content.to_cbor_bytes().unwrap());
    let expected: [u8; 32] = mac.finalize().into_bytes().into();
    assert_eq!(tag.into_inner(), expected);
    // a key shorter than the block is filled up with zeros, so "Jefe" gives the same tag
    let mut short = hmac::Hmac::<sha2::Sha256>::new_from_slice(b"Jefe").unwrap();
    short.update(&content.to_cbor_bytes().unwrap());
    let short: [u8; 32] = short.finalize().into_bytes().into();
    assert_eq!(tag.into_inner(), short);
}
