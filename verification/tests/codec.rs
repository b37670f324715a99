use mimi_content::nested_part::codec::{
    map_len_for_nestedpartref, read_nested_part, MAX_NESTING_DEPTH,
};
use mimi_content::{
    BaseDispos, Disposition, ExternalPart, ExternalPartRef, MimiContentAsRef,
    MimiContentDeserialize, MimiContentError, MimiContentSerialize, MultiPart, MultiPartRef,
    NestedPart, NestedPartContent, NestedPartContentCardinality, NestedPartRef, PartSemantics,
    SinglePart, SinglePartRef, Tstr,
};

fn null_part() -> NestedPart {
    NestedPart::default()
}

fn single_part() -> NestedPart {
    NestedPart {
        disposition: Disposition::Base(BaseDispos::Render),
        language: Tstr::from("en"),
        part_content: NestedPartContent::SinglePart(SinglePart {
            content_type: "text/markdown".into(),
            content: b"Hi *there*".to_vec().into(),
        }),
    }
}

fn external_part() -> NestedPart {
    NestedPart {
        disposition: Disposition::Base(BaseDispos::Attachment),
        language: Tstr::from("de"),
        part_content: NestedPartContent::ExternalPart(ExternalPart {
            content_type: "image/png".into(),
            url: "https://example.com/a.png".into(),
            expires: 0x0102_0304,
            size: 0x0102_0304_0506_0708,
            enc_alg: 0x0102,
            key: vec![1, 2].into(),
            nonce: vec![3].into(),
            aad: vec![].into(),
            hash_alg: 0x18,
            content_hash: vec![4, 5, 6].into(),
            description: "a picture".into(),
            filename: "a.png".into(),
        }),
    }
}

fn multi_part() -> NestedPart {
    NestedPart {
        disposition: Disposition::Ext(77),
        language: Tstr::from(""),
        part_content: NestedPartContent::MultiPart(MultiPart {
            part_semantics: PartSemantics::ProcessAll,
            parts: vec![single_part(), null_part(), external_part()],
        }),
    }
}

fn nested(depth: usize) -> NestedPart {
    let mut part = null_part();
    for _ in 1..depth {
        part = NestedPart {
            disposition: Disposition::default(),
            language: Tstr::from("en"),
            part_content: NestedPartContent::MultiPart(MultiPart {
                part_semantics: PartSemantics::ChooseOne,
                parts: vec![part],
            }),
        };
    }
    part
}

fn element_count(part: &NestedPart) -> usize {
    part.to_cbor_value().as_array().unwrap().len()
}

fn encoded(value: &ciborium::Value) -> Vec<u8> {
    let mut bytes = vec![];
    ciborium::into_writer(value, &mut bytes).unwrap();
    bytes
}

fn uint(n: u64) -> ciborium::Value {
    ciborium::Value::Integer(n.into())
}

fn text(s: &str) -> ciborium::Value {
    ciborium::Value::Text(s.into())
}

fn refused(elements: Vec<ciborium::Value>) -> bool {
    let value = ciborium::Value::Array(elements);
    let from_value = NestedPart::from_cbor_value(&value);
    let from_bytes = NestedPart::from_cbor_bytes(&encoded(&value));
    matches!(from_value, Err(MimiContentError::DeserializeError(_)))
        && matches!(from_bytes, Err(MimiContentError::DeserializeError(_)))
}

#[test]
fn each_content_is_written_with_its_number_of_fields() {
    assert_eq!(element_count(&null_part()), 3);
    assert_eq!(element_count(&single_part()), 3 + 2);
    assert_eq!(element_count(&external_part()), 3 + 12);
    assert_eq!(element_count(&multi_part()), 3 + 2);

    assert_eq!(map_len_for_nestedpartref(&null_part().as_ref()), 3);
    assert_eq!(map_len_for_nestedpartref(&single_part().as_ref()), 5);
    assert_eq!(map_len_for_nestedpartref(&external_part().as_ref()), 15);
    assert_eq!(map_len_for_nestedpartref(&multi_part().as_ref()), 5);

    assert_eq!(NestedPartRef::field_count(), 3);
    assert_eq!(SinglePartRef::field_count(), 2);
    assert_eq!(ExternalPartRef::field_count(), 12);
    assert_eq!(MultiPartRef::field_count(), 2);
}

#[test]
fn the_tag_follows_the_content() {
    for (part, tag) in [
        (null_part(), NestedPartContentCardinality::NullPart),
        (single_part(), NestedPartContentCardinality::SinglePart),
        (external_part(), NestedPartContentCardinality::ExternalPart),
        (multi_part(), NestedPartContentCardinality::MultiPart),
    ] {
        assert_eq!(part.part_content.cardinality(), tag);
        assert_eq!(part.as_ref().part_content.cardinality(), tag);
        let value = part.to_cbor_value();
        let elements = value.as_array().unwrap();
        assert_eq!(elements[2], uint(tag.to_code() as u64));
    }
}

#[test]
fn null_part_is_written_byte_for_byte() {
    assert_eq!(
        null_part().to_cbor_bytes().unwrap(),
        vec![0x83, 0x00, 0x62, b'e', b'n', 0x00]
    );
}

#[test]
fn single_part_is_written_byte_for_byte() {
    let mut expected = vec![0x85, 0x01, 0x62, b'e', b'n', 0x01, 0x6d];
    expected.extend_from_slice(b"text/markdown");
    expected.push(0x4a);
    expected.extend_from_slice(b"Hi *there*");
    assert_eq!(single_part().to_cbor_bytes().unwrap(), expected);
}

#[test]
fn external_part_is_written_byte_for_byte() {
    let mut expected = vec![0x8f, 0x06, 0x62, b'd', b'e', 0x02, 0x69];
    expected.extend_from_slice(b"image/png");
    expected.extend_from_slice(&[0x78, 25]);
    expected.extend_from_slice(b"https://example.com/a.png");
    expected.extend_from_slice(&[0x1a, 1, 2, 3, 4]);
    expected.extend_from_slice(&[0x1b, 1, 2, 3, 4, 5, 6, 7, 8]);
    expected.extend_from_slice(&[0x19, 1, 2]);
    expected.extend_from_slice(&[0x42, 1, 2]);
    expected.extend_from_slice(&[0x41, 3]);
    expected.extend_from_slice(&[0x40]);
    expected.extend_from_slice(&[0x18, 0x18]);
    expected.extend_from_slice(&[0x43, 4, 5, 6]);
    expected.push(0x69);
    expected.extend_from_slice(b"a picture");
    expected.push(0x65);
    expected.extend_from_slice(b"a.png");
    assert_eq!(external_part().to_cbor_bytes().unwrap(), expected);
}

#[test]
fn multipart_is_written_byte_for_byte() {
    let multi = NestedPart {
        disposition: Disposition::Ext(77),
        language: Tstr::from(""),
        part_content: NestedPartContent::MultiPart(MultiPart {
            part_semantics: PartSemantics::ProcessAll,
            parts: vec![null_part(), null_part()],
        }),
    };
    assert_eq!(
        multi.to_cbor_bytes().unwrap(),
        vec![
            0x85, 0x18, 77, 0x60, 0x03, 0x02, //
            0x82, //
            0x83, 0x00, 0x62, b'e', b'n', 0x00, //
            0x83, 0x00, 0x62, b'e', b'n', 0x00,
        ]
    );
}

#[test]
fn every_part_round_trips() {
    for part in [null_part(), single_part(), external_part(), multi_part(), nested(5)] {
        let bytes = part.to_cbor_bytes().unwrap();
        let decoded = NestedPart::from_cbor_bytes(&bytes).unwrap();
        assert_eq!(decoded, part);
        assert_eq!(decoded.to_cbor_bytes().unwrap(), bytes);
        let from_value = NestedPart::from_cbor_value(&part.to_cbor_value()).unwrap();
        assert_eq!(from_value, part);
    }
}

#[test]
fn mirror_of_a_part_is_written_like_the_part() {
    for part in [null_part(), single_part(), external_part(), multi_part(), nested(5)] {
        let mirror = part.as_ref();
        assert_eq!(mirror.to_cbor_bytes().unwrap(), part.to_cbor_bytes().unwrap());
        assert_eq!(mirror.to_cbor_value(), part.to_cbor_value());
        assert_eq!(mirror.clone(), mirror);
    }
}

#[test]
fn mirror_borrows_every_field() {
    let part = external_part();
    let mirror = part.as_ref();
    assert_eq!(mirror.disposition, &part.disposition);
    assert_eq!(&*mirror.language, "de");
    match (&mirror.part_content, &part.part_content) {
        (
            mimi_content::NestedPartContentRef::ExternalPart(lent),
            NestedPartContent::ExternalPart(owned),
        ) => {
            assert_eq!(lent, &owned.as_ref());
            assert_eq!(&*lent.content_type, &*owned.content_type);
            assert_eq!(&*lent.url, &*owned.url);
            assert_eq!(lent.expires, &owned.expires);
            assert_eq!(lent.size, &owned.size);
            assert_eq!(lent.enc_alg, &owned.enc_alg);
            assert_eq!(&*lent.key, &*owned.key);
            assert_eq!(&*lent.nonce, &*owned.nonce);
            assert_eq!(&*lent.aad, &*owned.aad);
            assert_eq!(lent.hash_alg, &owned.hash_alg);
            assert_eq!(&*lent.content_hash, &*owned.content_hash);
            assert_eq!(&*lent.description, &*owned.description);
            assert_eq!(&*lent.filename, &*owned.filename);
        }
        other => panic!("expected external parts, got {:?}", other),
    }
    let multi = multi_part();
    match multi.as_ref().part_content {
        mimi_content::NestedPartContentRef::MultiPart(lent) => {
            assert_eq!(lent.part_semantics, &PartSemantics::ProcessAll);
            assert_eq!(lent.parts.len(), 3);
            assert_eq!(lent.parts[0], single_part().as_ref());
            assert_eq!(lent.parts[1], null_part().as_ref());
            assert_eq!(lent.parts[2], external_part().as_ref());
        }
        other => panic!("expected a multipart, got {:?}", other),
    }
}

#[test]
fn copies_are_equal_to_what_they_were_made_of() {
    for part in [null_part(), single_part(), external_part(), multi_part(), nested(4)] {
        assert_eq!(part.clone(), part);
        assert_eq!(part.part_content.clone(), part.part_content);
    }
}

#[test]
fn what_is_no_array_is_refused() {
    for value in [uint(0), text("en"), ciborium::Value::Null, ciborium::Value::Map(vec![])] {
        assert!(matches!(
            NestedPart::from_cbor_value(&value),
            Err(MimiContentError::DeserializeError(_))
        ));
    }
    assert!(matches!(
        NestedPart::from_cbor_bytes(&[0xff, 0x00]),
        Err(MimiContentError::DeserializeError(_))
    ));
    assert!(matches!(
        NestedPart::from_cbor_bytes(&[]),
        Err(MimiContentError::DeserializeError(_))
    ));
}

#[test]
fn missing_leading_elements_are_refused() {
    assert!(refused(vec![]));
    assert!(refused(vec![uint(0)]));
    assert!(refused(vec![uint(0), text("en")]));
    assert!(!refused(vec![uint(0), text("en"), uint(0)]));
}

#[test]
fn wrong_number_of_elements_for_the_tag_is_refused() {
    // null part
    assert!(refused(vec![uint(0), text("en"), uint(0), uint(0)]));
    // single part
    assert!(refused(vec![uint(0), text("en"), uint(1)]));
    assert!(refused(vec![uint(0), text("en"), uint(1), text("a/b")]));
    assert!(!refused(vec![
        uint(0),
        text("en"),
        uint(1),
        text("a/b"),
        ciborium::Value::Bytes(vec![])
    ]));
    assert!(refused(vec![
        uint(0),
        text("en"),
        uint(1),
        text("a/b"),
        ciborium::Value::Bytes(vec![]),
        uint(0)
    ]));
    // multipart
    assert!(refused(vec![uint(0), text("en"), uint(3), uint(0)]));
    assert!(!refused(vec![
        uint(0),
        text("en"),
        uint(3),
        uint(0),
        ciborium::Value::Array(vec![])
    ]));
    assert!(refused(vec![
        uint(0),
        text("en"),
        uint(3),
        uint(0),
        ciborium::Value::Array(vec![]),
        uint(0)
    ]));
    // external part
    let mut sixteen = external_part().to_cbor_value().as_array().unwrap().clone();
    sixteen.push(text("more"));
    assert!(refused(sixteen));
}

#[test]
fn elements_of_the_wrong_kind_or_out_of_range_are_refused() {
    // disposition
    assert!(refused(vec![uint(256), text("en"), uint(0)]));
    assert!(refused(vec![ciborium::Value::Integer((-1).into()), text("en"), uint(0)]));
    assert!(refused(vec![text("1"), text("en"), uint(0)]));
    assert!(!refused(vec![uint(255), text("en"), uint(0)]));
    // language
    assert!(refused(vec![uint(0), ciborium::Value::Bytes(b"en".to_vec()), uint(0)]));
    // tag
    assert!(refused(vec![uint(0), text("en"), uint(4)]));
    assert!(refused(vec![uint(0), text("en"), text("0")]));
    // single part
    assert!(refused(vec![uint(0), text("en"), uint(1), text("a/b"), text("content")]));
    assert!(refused(vec![
        uint(0),
        text("en"),
        uint(1),
        ciborium::Value::Bytes(vec![]),
        ciborium::Value::Bytes(vec![])
    ]));
    // part semantics
    assert!(refused(vec![
        uint(0),
        text("en"),
        uint(3),
        uint(3),
        ciborium::Value::Array(vec![])
    ]));
    // the parts of a multipart
    assert!(refused(vec![uint(0), text("en"), uint(3), uint(0), uint(0)]));
    assert!(refused(vec![
        uint(0),
        text("en"),
        uint(3),
        uint(0),
        ciborium::Value::Array(vec![null_part().to_cbor_value(), uint(0)])
    ]));
}

#[test]
fn numbers_of_an_external_part_have_their_ranges() {
    let elements = external_part().to_cbor_value().as_array().unwrap().clone();
    for (at, too_large) in [
        (5, u32::MAX as u64 + 1),
        (7, u16::MAX as u64 + 1),
        (11, u8::MAX as u64 + 1),
    ] {
        let mut changed = elements.clone();
        changed[at] = uint(too_large);
        assert!(refused(changed));
        let mut changed = elements.clone();
        changed[at] = uint(too_large - 1);
        assert!(!refused(changed));
    }
    let mut changed = elements.clone();
    changed[6] = uint(u64::MAX);
    let decoded = NestedPart::from_cbor_value(&ciborium::Value::Array(changed)).unwrap();
    match decoded.part_content {
        NestedPartContent::ExternalPart(external) => assert_eq!(external.size, u64::MAX),
        other => panic!("expected an external part, got {:?}", other),
    }
    let mut changed = elements.clone();
    changed[6] = ciborium::Value::Integer((-1).into());
    assert!(refused(changed));
}

#[test]
fn nesting_is_read_up_to_the_bound() {
    assert_eq!(MAX_NESTING_DEPTH, 128);
    let value = nested(3).to_cbor_value();
    assert_eq!(read_nested_part(&value, 3).unwrap(), nested(3));
    assert_eq!(read_nested_part(&value, 4).unwrap(), nested(3));
    assert!(matches!(
        read_nested_part(&value, 2),
        Err(MimiContentError::DeserializeError(_))
    ));
    assert!(matches!(
        read_nested_part(&value, 0),
        Err(MimiContentError::DeserializeError(_))
    ));
    let leaf = null_part().to_cbor_value();
    assert_eq!(read_nested_part(&leaf, 1).unwrap(), null_part());
    assert!(matches!(
        read_nested_part(&leaf, 0),
        Err(MimiContentError::DeserializeError(_))
    ));
}

#[test]
fn nesting_beyond_the_default_bound_is_refused() {
    let deepest = nested(MAX_NESTING_DEPTH);
    assert_eq!(
        NestedPart::from_cbor_value(&deepest.to_cbor_value()).unwrap(),
        deepest
    );
    assert_eq!(
        NestedPart::from_cbor_bytes(&deepest.to_cbor_bytes().unwrap()).unwrap(),
        deepest
    );
    let too_deep = nested(MAX_NESTING_DEPTH + 1);
    assert!(matches!(
        NestedPart::from_cbor_value(&too_deep.to_cbor_value()),
        Err(MimiContentError::DeserializeError(_))
    ));
    assert!(matches!(
        NestedPart::from_cbor_bytes(&too_deep.to_cbor_bytes().unwrap()),
        Err(MimiContentError::DeserializeError(_))
    ));
}

#[test]
fn what_follows_the_first_item_is_not_looked_at() {
    let mut bytes = single_part().to_cbor_bytes().unwrap();
    bytes.extend_from_slice(&[0xff, 0x00, 0x01]);
    assert_eq!(NestedPart::from_cbor_bytes(&bytes).unwrap(), single_part());
}

#[test]
fn failures_say_what_went_wrong() {
    match read_nested_part(&nested(2).to_cbor_value(), 1) {
        Err(MimiContentError::DeserializeError(ciborium::de::Error::RecursionLimitExceeded)) => {}
        other => panic!("expected a nesting failure, got {:?}", other),
    }
    match NestedPart::from_cbor_value(&uint(0)) {
        Err(MimiContentError::DeserializeError(ciborium::de::Error::Semantic(None, message))) => {
            assert_eq!(message, "a part is an array");
        }
        other => panic!("expected a failure of shape, got {:?}", other),
    }
    match NestedPart::from_cbor_value(&ciborium::Value::Array(vec![
        uint(0),
        text("en"),
        uint(0),
        uint(0),
    ])) {
        Err(MimiContentError::DeserializeError(ciborium::de::Error::Semantic(None, message))) => {
            assert_eq!(message, "a null part has three elements");
        }
        other => panic!("expected a failure of shape, got {:?}", other),
    }
    match NestedPart::from_cbor_bytes(&[0x83, 0x00]) {
        Err(MimiContentError::DeserializeError(ciborium::de::Error::Io(_))) => {}
        other => panic!("expected a failure to read, got {:?}", other),
    }
    match NestedPart::from_cbor_bytes(&[0xff]) {
        Err(MimiContentError::DeserializeError(_)) => {}
        other => panic!("expected a failure to parse, got {:?}", other),
    }
}
