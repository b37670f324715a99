use mimi_content::{
    BaseDispos, Disposition, MessageId, MimiContent, MimiContentAsRef, MimiContentDeserialize,
    MimiContentError, MimiContentSerialize, MultiPart, NestedPart, NestedPartContent,
    PartSemantics, SinglePart, Tstr,
};
use sha2::Digest;

fn empty_content() -> MimiContent {
    MimiContent::new(
        Default::default(),
        [0; 16],
        vec![].into(),
        None,
        Default::default(),
        None,
        None,
    )
}

fn build_message_id(mimi_content: &MimiContent) {
    let _message_id = MessageId::construct(
        Tstr::from("mimi://u/alice.smith").as_ref(),
        Tstr::from("mimi://r/conversation").as_ref(),
        mimi_content,
    )
    .unwrap();
}

fn build_message_id_custom<H: Digest>(mimi_content: &MimiContent, hash_alg: u8) {
    let _message_id = MessageId::construct_with_custom_alg(
        hash_alg,
        Tstr::from("mimi://u/alice.smith").as_ref(),
        Tstr::from("mimi://r/conversation").as_ref(),
        mimi_content,
        |input: &[u8]| H::digest(input).to_vec(),
    )
    .unwrap();
}

#[test]
fn message_id_constructs_correctly() {
    let mimi_content = empty_content();

    // Sha256
    build_message_id(&mimi_content);

    // custom algs in the custom range
    build_message_id_custom::<sha2::Sha384>(&mimi_content, 0x07);
    build_message_id_custom::<sha2::Sha512>(&mimi_content, 0x08);
    build_message_id_custom::<sha3::Sha3_224>(&mimi_content, 0x09);
    build_message_id_custom::<sha3::Sha3_256>(&mimi_content, 0x0A);
    build_message_id_custom::<sha3::Sha3_384>(&mimi_content, 0x0B);
    build_message_id_custom::<sha3::Sha3_512>(&mimi_content, 0x0C);

    build_message_id_custom::<sha2::Sha224>(&mimi_content, 80);
    build_message_id_custom::<sha2::Sha512_224>(&mimi_content, 81);
    build_message_id_custom::<sha2::Sha512_256>(&mimi_content, 82);
}

#[test]
fn repro_dual_singlepart_in_multipart_usecase() {
    let mut nested_parts = vec![];

    nested_parts.push(NestedPart {
        part_content: NestedPartContent::SinglePart(SinglePart {
            content_type: "text/plain".to_string().into(),
            content: b"Hello World".to_vec().into(),
        }),
        ..Default::default()
    });

    nested_parts.push(NestedPart {
        part_content: NestedPartContent::SinglePart(SinglePart {
            content_type: "text/plain".to_string().into(),
            content: b"Hello World".to_vec().into(),
        }),
        ..Default::default()
    });

    let nested_part = NestedPart::builder()
        .part_content(NestedPartContent::MultiPart(MultiPart {
            parts: nested_parts,
            part_semantics: PartSemantics::SingleUnit,
        }))
        .build();

    let mimi_content = MimiContent::builder()
        .salt_with_rng(&mut rand::thread_rng())
        .topic_id(vec![].into())
        .nested_part(nested_part)
        .build();

    let cbor_bytes = mimi_content.to_cbor_bytes().unwrap();
    let deser_mimi_content = MimiContent::from_cbor_bytes(&cbor_bytes).unwrap();
    assert_eq!(mimi_content, deser_mimi_content);
}

fn hello_world_part() -> NestedPart {
    NestedPart {
        disposition: Disposition::Base(BaseDispos::Render),
        language: Tstr::from("en"),
        part_content: NestedPartContent::SinglePart(SinglePart {
            content_type: "text/plain".to_string().into(),
            content: b"Hello World".to_vec().into(),
        }),
    }
}

fn hello_world_envelope() -> MimiContent {
    MimiContent::builder()
        .salt_from_outside_entropy([0; 16])
        .topic_id(vec![].into())
        .nested_part(hello_world_part())
        .build()
}

const HELLO_WORLD_ENVELOPE: [u8; 52] = [
    0x87, // seven fields
    0x50, 0, 0, 0, 0, 0, 0, 0, 0, 0, 0, 0, 0, 0, 0, 0, 0, // salt
    0xf6, // replaces
    0x40, // topic
    0xf6, // expires
    0xf6, // in reply to
    0xa0, // extensions
    0x85, // the part: five elements
    0x01, // render
    0x62, b'e', b'n', //
    0x01, // single part
    0x6a, b't', b'e', b'x', b't', b'/', b'p', b'l', b'a', b'i', b'n', //
    0x4b, b'H', b'e', b'l', b'l', b'o', b' ', b'W', b'o', b'r', b'l', b'd',
];

#[test]
fn single_part_envelope_is_written_byte_for_byte() {
    let envelope = hello_world_envelope();
    assert_eq!(envelope.to_cbor_bytes().unwrap(), HELLO_WORLD_ENVELOPE.to_vec());
}

#[test]
fn single_part_envelope_round_trips() {
    let envelope = hello_world_envelope();
    let bytes = envelope.to_cbor_bytes().unwrap();
    let decoded = MimiContent::from_cbor_bytes(&bytes).unwrap();
    assert_eq!(decoded, envelope);
    assert_eq!(decoded.nested_part, hello_world_part());
    assert_eq!(decoded.to_cbor_bytes().unwrap(), bytes);
}

#[test]
fn single_part_envelope_is_read_from_its_bytes() {
    let decoded = MimiContent::from_cbor_bytes(&HELLO_WORLD_ENVELOPE).unwrap();
    assert_eq!(decoded, hello_world_envelope());
    assert_eq!(decoded.salt(), &[0u8; 16]);
    assert_eq!(decoded.topic_id(), None);
}

#[test]
fn single_part_envelope_has_an_identifier() {
    let envelope = hello_world_envelope();
    let id = MessageId::construct(
        Tstr::from("mimi://u/alice.smith").as_ref(),
        Tstr::from("mimi://r/conversation").as_ref(),
        &envelope,
    )
    .unwrap();
    assert_eq!(id.len(), 32);
    assert_eq!(id[0], 0x01);
    assert_eq!(id.as_ref().hash_alg(), 0x01);

    let mut hasher = sha2::Sha256::new();
    hasher.update(b"mimi://u/alice.smith");
    hasher.update(b"mimi://r/conversation");
    hasher.update(HELLO_WORLD_ENVELOPE);
    hasher.update([0u8; 16]);
    let digest = hasher.finalize();
    assert_eq!(&id[1..], &digest[..31]);
}

#[test]
fn multipart_keeps_duplicate_children() {
    let multi = NestedPart {
        disposition: Disposition::default(),
        language: Tstr::from("en"),
        part_content: NestedPartContent::MultiPart(MultiPart {
            part_semantics: PartSemantics::SingleUnit,
            parts: vec![hello_world_part(), hello_world_part()],
        }),
    };
    let bytes = multi.to_cbor_bytes().unwrap();
    let decoded = NestedPart::from_cbor_bytes(&bytes).unwrap();
    match &decoded.part_content {
        NestedPartContent::MultiPart(decoded_multi) => {
            assert_eq!(decoded_multi.part_semantics, PartSemantics::SingleUnit);
            assert_eq!(decoded_multi.parts.len(), 2);
            assert_eq!(decoded_multi.parts[0], hello_world_part());
            assert_eq!(decoded_multi.parts[1], hello_world_part());
        }
        other => panic!("expected a multipart, got {:?}", other),
    }
    assert_eq!(decoded, multi);
}

#[test]
fn multipart_keeps_the_order_of_its_children() {
    let mut second = hello_world_part();
    second.language = Tstr::from("fr");
    let multi = NestedPart {
        disposition: Disposition::default(),
        language: Tstr::from("en"),
        part_content: NestedPartContent::MultiPart(MultiPart {
            part_semantics: PartSemantics::ChooseOne,
            parts: vec![hello_world_part(), second.clone(), NestedPart::default()],
        }),
    };
    let decoded = NestedPart::from_cbor_bytes(&multi.to_cbor_bytes().unwrap()).unwrap();
    match decoded.part_content {
        NestedPartContent::MultiPart(decoded_multi) => {
            assert_eq!(decoded_multi.parts, vec![hello_world_part(), second, NestedPart::default()]);
        }
        other => panic!("expected a multipart, got {:?}", other),
    }
}

fn external_part_elements() -> Vec<ciborium::Value> {
    vec![
        ciborium::Value::Integer(6.into()),
        ciborium::Value::Text("en".into()),
        ciborium::Value::Integer(2.into()),
        ciborium::Value::Text("video/mp4".into()),
        ciborium::Value::Text("https://example.com/storage/8ksB4bSrrRE.mp4".into()),
        ciborium::Value::Integer(0.into()),
        ciborium::Value::Integer(708234961u64.into()),
        ciborium::Value::Integer(1.into()),
        ciborium::Value::Bytes(vec![0x21; 16]),
        ciborium::Value::Bytes(vec![0xc8; 12]),
        ciborium::Value::Bytes(vec![]),
        ciborium::Value::Integer(1.into()),
        ciborium::Value::Bytes(vec![0x9a; 32]),
        ciborium::Value::Text("2 hours of key signing video".into()),
        ciborium::Value::Text("bigfile.mp4".into()),
    ]
}

fn encoded(value: &ciborium::Value) -> Vec<u8> {
    let mut bytes = vec![];
    ciborium::into_writer(value, &mut bytes).unwrap();
    bytes
}

#[test]
fn external_part_without_file_name_gets_an_empty_one() {
    let mut elements = external_part_elements();
    elements.pop();
    assert_eq!(elements.len(), 14);
    let bytes = encoded(&ciborium::Value::Array(elements));
    let decoded = NestedPart::from_cbor_bytes(&bytes).unwrap();
    assert_eq!(decoded.disposition, Disposition::Base(BaseDispos::Attachment));
    match decoded.part_content {
        NestedPartContent::ExternalPart(external) => {
            assert_eq!(&*external.filename, "");
            assert_eq!(&*external.content_type, "video/mp4");
            assert_eq!(&*external.url, "https://example.com/storage/8ksB4bSrrRE.mp4");
            assert_eq!(external.expires, 0);
            assert_eq!(external.size, 708234961);
            assert_eq!(external.enc_alg, 1);
            assert_eq!(&*external.key, &[0x21; 16][..]);
            assert_eq!(&*external.nonce, &[0xc8; 12][..]);
            assert_eq!(&*external.aad, &[][..]);
            assert_eq!(external.hash_alg, 1);
            assert_eq!(&*external.content_hash, &[0x9a; 32][..]);
            assert_eq!(&*external.description, "2 hours of key signing video");
        }
        other => panic!("expected an external part, got {:?}", other),
    }
}

#[test]
fn external_part_with_file_name_keeps_it() {
    let bytes = encoded(&ciborium::Value::Array(external_part_elements()));
    let decoded = NestedPart::from_cbor_bytes(&bytes).unwrap();
    match &decoded.part_content {
        NestedPartContent::ExternalPart(external) => {
            assert_eq!(&*external.filename, "bigfile.mp4");
        }
        other => panic!("expected an external part, got {:?}", other),
    }
    assert_eq!(decoded.to_cbor_bytes().unwrap(), bytes);
}

#[test]
fn external_part_without_any_other_field_is_refused() {
    // Without the description the file name stands in its place: that array is one that
    // misses its file name, and is read as such.
    for missing in 0..13 {
        let mut elements = external_part_elements();
        elements.remove(missing);
        let bytes = encoded(&ciborium::Value::Array(elements));
        let outcome = NestedPart::from_cbor_bytes(&bytes);
        assert!(
            matches!(outcome, Err(MimiContentError::DeserializeError(_))),
            "without element {}: {:?}",
            missing,
            outcome
        );
    }
    let mut elements = external_part_elements();
    elements.truncate(13);
    let bytes = encoded(&ciborium::Value::Array(elements));
    assert!(matches!(
        NestedPart::from_cbor_bytes(&bytes),
        Err(MimiContentError::DeserializeError(_))
    ));

    let mut elements = external_part_elements();
    elements.remove(13);
    let bytes = encoded(&ciborium::Value::Array(elements));
    match NestedPart::from_cbor_bytes(&bytes).unwrap().part_content {
        NestedPartContent::ExternalPart(external) => {
            assert_eq!(&*external.description, "bigfile.mp4");
            assert_eq!(&*external.filename, "");
        }
        other => panic!("expected an external part, got {:?}", other),
    }
}

#[test]
fn unknown_disposition_code_is_kept() {
    let disposition = Disposition::from(200u8);
    assert_eq!(disposition, Disposition::Ext(200));
    assert_eq!(u8::from(disposition), 200);

    let bytes = encoded(&ciborium::Value::Array(vec![
        ciborium::Value::Integer(200.into()),
        ciborium::Value::Text("en".into()),
        ciborium::Value::Integer(0.into()),
    ]));
    assert_eq!(bytes, vec![0x83, 0x18, 200, 0x62, b'e', b'n', 0x00]);
    let decoded = NestedPart::from_cbor_bytes(&bytes).unwrap();
    assert_eq!(decoded.disposition, Disposition::Ext(200));
    assert_eq!(decoded.to_cbor_bytes().unwrap(), bytes);
}
