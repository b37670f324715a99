use mimi_content::delivery_report::{
    MessageBaseStatus, MessageStatus, MessageStatusReport, PerMessageStatus,
};
use mimi_content::derived::MessageDerivedValues;
use mimi_content::{
    ExtensionValue, MessageId, MimiContentAsRef, MimiContentDeserialize, MimiContentError,
    MimiContentSerialize, Name, Timestamp,
};

fn report() -> MessageStatusReport {
    MessageStatusReport(vec![
        PerMessageStatus {
            message_id: MessageId::from_raw_unchecked([0xa1; 32]),
            status: MessageStatus::Base(MessageBaseStatus::Read),
        },
        PerMessageStatus {
            message_id: MessageId::from_raw_unchecked([0xb2; 32]),
            status: MessageStatus::Ext(200),
        },
        PerMessageStatus {
            message_id: MessageId::from_raw_unchecked([0xa1; 32]),
            status: MessageStatus::Base(MessageBaseStatus::Unread),
        },
    ])
}

fn report_bytes() -> Vec<u8> {
    let mut bytes = vec![0x83];
    bytes.extend_from_slice(&[0x82, 0x58, 32]);
    bytes.extend_from_slice(&[0xa1; 32]);
    bytes.push(0x02);
    bytes.extend_from_slice(&[0x82, 0x58, 32]);
    bytes.extend_from_slice(&[0xb2; 32]);
    bytes.extend_from_slice(&[0x18, 200]);
    bytes.extend_from_slice(&[0x82, 0x58, 32]);
    bytes.extend_from_slice(&[0xa1; 32]);
    bytes.push(0x00);
    bytes
}

fn derived(timestamp: Timestamp) -> MessageDerivedValues {
    MessageDerivedValues {
        message_id: MessageId::from_raw_unchecked([0x01; 32]),
        hub_accepted_timestamp: timestamp,
        mls_group_id: vec![0xde, 0xad].into(),
        sender_leaf_index: 4,
        sender_client_url: "mimi://a/d/c".into(),
        sender_user_url: "mimi://a/u/b".into(),
        room_url: "mimi://a/r/r".into(),
    }
}

fn same(first: &MessageDerivedValues, second: &MessageDerivedValues) -> bool {
    first.message_id == second.message_id
        && first.hub_accepted_timestamp == second.hub_accepted_timestamp
        && first.mls_group_id == second.mls_group_id
        && first.sender_leaf_index == second.sender_leaf_index
        && first.sender_client_url == second.sender_client_url
        && first.sender_user_url == second.sender_user_url
        && first.room_url == second.room_url
}

#[test]
fn report_is_written_byte_for_byte() {
    assert_eq!(report().to_cbor_bytes().unwrap(), report_bytes());
    assert_eq!(MessageStatusReport(vec![]).to_cbor_bytes().unwrap(), vec![0x80]);
}

#[test]
fn report_round_trips() {
    let decoded = MessageStatusReport::from_cbor_bytes(&report_bytes()).unwrap();
    assert_eq!(decoded, report());
    assert_eq!(decoded.0.len(), 3);
    assert_eq!(decoded.0[1].status, MessageStatus::Ext(200));
    assert_eq!(decoded.to_cbor_bytes().unwrap(), report_bytes());
    assert_eq!(
        MessageStatusReport::from_cbor_bytes(&[0x80]).unwrap(),
        MessageStatusReport(vec![])
    );
}

#[test]
fn mirror_of_a_report_is_written_like_the_report() {
    let report = report();
    let mirror = report.as_ref();
    assert_eq!(mirror.to_cbor_bytes().unwrap(), report_bytes());
    assert_eq!(mirror.clone(), mirror);
    assert_eq!(report.clone(), report);
    let status = &report.0[1];
    let lent = status.as_ref();
    assert_eq!(lent.message_id, status.message_id.as_ref());
    assert_eq!(lent.status, &MessageStatus::Ext(200));
    assert_eq!(lent.to_cbor_bytes().unwrap(), status.to_cbor_bytes().unwrap());
    assert_eq!(lent.clone(), lent);
    assert_eq!(status.clone(), *status);
}

#[test]
fn status_of_the_wrong_shape_is_refused() {
    let id = ciborium::Value::Bytes(vec![1; 32]);
    let code = ciborium::Value::Integer(1.into());
    for refused in [
        ciborium::Value::Array(vec![id.clone()]),
        ciborium::Value::Array(vec![id.clone(), code.clone(), code.clone()]),
        ciborium::Value::Array(vec![code.clone(), id.clone()]),
        ciborium::Value::Array(vec![id.clone(), ciborium::Value::Integer(256.into())]),
        ciborium::Value::Array(vec![ciborium::Value::Bytes(vec![1; 31]), code.clone()]),
        ciborium::Value::Null,
    ] {
        assert!(matches!(
            PerMessageStatus::from_cbor_value(&refused),
            Err(MimiContentError::DeserializeError(_))
        ));
        assert!(matches!(
            MessageStatusReport::from_cbor_value(&ciborium::Value::Array(vec![
                ciborium::Value::Array(vec![id.clone(), code.clone()]),
                refused.clone(),
            ])),
            Err(MimiContentError::DeserializeError(_))
        ));
    }
    assert!(matches!(
        MessageStatusReport::from_cbor_value(&ciborium::Value::Map(vec![])),
        Err(MimiContentError::DeserializeError(_))
    ));
}

#[test]
fn derived_values_are_written_byte_for_byte() {
    let values = derived(Timestamp::MsecsSinceEpoch(1_644_387_225_019));
    let mut expected = vec![0x87, 0x58, 32];
    expected.extend_from_slice(&[0x01; 32]);
    expected.extend_from_slice(&[0x1b, 0x00, 0x00, 0x01, 0x7e, 0xdd, 0x1d, 0xcd, 0xbb]);
    expected.extend_from_slice(&[0x42, 0xde, 0xad]);
    expected.push(0x04);
    expected.push(0x6c);
    expected.extend_from_slice(b"mimi://a/d/c");
    expected.push(0x6c);
    expected.extend_from_slice(b"mimi://a/u/b");
    expected.push(0x6c);
    expected.extend_from_slice(b"mimi://a/r/r");
    assert_eq!(values.to_cbor_bytes().unwrap(), expected);
    assert_eq!(values.as_ref().to_cbor_bytes().unwrap(), expected);
    let decoded = MessageDerivedValues::from_cbor_bytes(&expected).unwrap();
    assert!(same(&decoded, &values));
    assert!(same(&values.clone(), &values));
    assert_eq!(values.as_ref().clone().to_cbor_bytes().unwrap(), expected);
}

#[test]
fn extended_time_stands_under_its_tag() {
    let mut map = indexmap::IndexMap::new();
    map.insert(
        Name::Int(1),
        ExtensionValue::from(ciborium::Value::Integer(1_644_387_225.into())),
    );
    map.insert(
        Name::Int(-3),
        ExtensionValue::from(ciborium::Value::Integer(19.into())),
    );
    let timestamp = Timestamp::ExtendedTime(map);
    assert_eq!(
        timestamp.to_cbor_bytes().unwrap(),
        vec![0xd9, 0x03, 0xe9, 0xa2, 0x01, 0x1a, 0x62, 0x03, 0x5b, 0x99, 0x22, 0x13]
    );
    assert_eq!(
        Timestamp::from_cbor_bytes(&timestamp.to_cbor_bytes().unwrap()).unwrap(),
        timestamp
    );
    assert_eq!(timestamp.clone(), timestamp);

    let values = derived(timestamp);
    let decoded = MessageDerivedValues::from_cbor_bytes(&values.to_cbor_bytes().unwrap()).unwrap();
    assert!(same(&decoded, &values));
}

#[test]
fn timestamps_are_read_from_integers_and_tagged_maps_only() {
    assert_eq!(
        Timestamp::from_cbor_bytes(&[0x00]).unwrap(),
        Timestamp::MsecsSinceEpoch(0)
    );
    assert_eq!(
        Timestamp::from_cbor_value(&ciborium::Value::Integer(u64::MAX.into())).unwrap(),
        Timestamp::MsecsSinceEpoch(u64::MAX)
    );
    for refused in [
        ciborium::Value::Integer((-1).into()),
        ciborium::Value::Text("now".into()),
        ciborium::Value::Map(vec![]),
        ciborium::Value::Tag(1002, Box::new(ciborium::Value::Map(vec![]))),
        ciborium::Value::Tag(1001, Box::new(ciborium::Value::Integer(1.into()))),
        ciborium::Value::Tag(
            1001,
            Box::new(ciborium::Value::Map(vec![(
                ciborium::Value::Null,
                ciborium::Value::Null,
            )])),
        ),
    ] {
        assert!(matches!(
            Timestamp::from_cbor_value(&refused),
            Err(MimiContentError::DeserializeError(_))
        ));
    }
}

#[test]
fn derived_values_of_the_wrong_shape_are_refused() {
    let value = derived(Timestamp::MsecsSinceEpoch(5)).to_cbor_value();
    let elements = value.as_array().unwrap().clone();
    assert_eq!(elements.len(), 7);
    let mut six = elements.clone();
    six.pop();
    let mut eight = elements.clone();
    eight.push(ciborium::Value::Null);
    let mut large_index = elements.clone();
    large_index[3] = ciborium::Value::Integer((u32::MAX as u64 + 1).into());
    let mut bytes_for_text = elements.clone();
    bytes_for_text[6] = ciborium::Value::Bytes(vec![]);
    let mut text_for_bytes = elements.clone();
    text_for_bytes[2] = ciborium::Value::Text("group".into());
    for refused in [six, eight, large_index, bytes_for_text, text_for_bytes] {
        assert!(matches!(
            MessageDerivedValues::from_cbor_value(&ciborium::Value::Array(refused)),
            Err(MimiContentError::DeserializeError(_))
        ));
    }
    assert!(MessageDerivedValues::from_cbor_value(&ciborium::Value::Array(elements)).is_ok());
}
