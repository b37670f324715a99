use mimi_content::{
    Bstr, BstrRef, MimiContentAsRef, MimiContentDeserialize, MimiContentError,
    MimiContentSerialize, Tstr, TstrRef,
};

#[test]
fn text_converts_both_ways() {
    let text = Tstr::from("hello".to_string());
    assert_eq!(&*text, "hello");
    assert_eq!(text.clone().into_inner(), "hello".to_string());
    assert_eq!(String::from(text.clone()), "hello".to_string());
    assert_eq!(Tstr::from("hello"), text);
    assert_eq!(&*text.as_ref(), "hello");
    assert_eq!(TstrRef::from("hello"), text.as_ref());
    assert_eq!(text.as_ref().clone(), text.as_ref());
    assert_eq!(&*Tstr::default(), "");
    assert_eq!(&*TstrRef::default(), "");
    assert_eq!(text.len(), 5);
}

#[test]
fn bytes_convert_both_ways() {
    let bytes = Bstr::from(vec![1u8, 2, 3]);
    assert_eq!(&*bytes, &[1u8, 2, 3][..]);
    assert_eq!(bytes.clone().into_inner(), vec![1u8, 2, 3]);
    assert_eq!(Vec::<u8>::from(bytes.clone()), vec![1u8, 2, 3]);
    assert_eq!(&*bytes.as_ref(), &[1u8, 2, 3][..]);
    assert_eq!(BstrRef::from(&[1u8, 2, 3][..]), bytes.as_ref());
    assert_eq!(bytes.as_ref().clone(), bytes.as_ref());
    assert_eq!(&*Bstr::default(), &[0u8; 0][..]);
    assert_eq!(&*BstrRef::default(), &[0u8; 0][..]);
    assert!(!bytes.is_empty());
}

#[test]
fn text_is_written_as_a_text_item() {
    let text = Tstr::from("text");
    assert_eq!(text.to_cbor_bytes().unwrap(), vec![0x64, b't', b'e', b'x', b't']);
    assert_eq!(text.as_ref().to_cbor_bytes().unwrap(), vec![0x64, b't', b'e', b'x', b't']);
    assert_eq!(Tstr::from("").to_cbor_bytes().unwrap(), vec![0x60]);
    // two bytes of UTF-8 for one character
    assert_eq!(Tstr::from("é").to_cbor_bytes().unwrap(), vec![0x62, 0xc3, 0xa9]);
}

#[test]
fn bytes_are_written_as_a_byte_string_and_never_as_text() {
    let bytes = Bstr::from(b"text".to_vec());
    assert_eq!(bytes.to_cbor_bytes().unwrap(), vec![0x44, b't', b'e', b'x', b't']);
    assert_eq!(bytes.as_ref().to_cbor_bytes().unwrap(), vec![0x44, b't', b'e', b'x', b't']);
    assert_eq!(Bstr::from(vec![]).to_cbor_bytes().unwrap(), vec![0x40]);
}

#[test]
fn text_and_bytes_are_read_from_their_own_kind_only() {
    assert_eq!(Tstr::from_cbor_bytes(&[0x64, b't', b'e', b'x', b't']).unwrap(), Tstr::from("text"));
    assert_eq!(
        Bstr::from_cbor_bytes(&[0x44, b't', b'e', b'x', b't']).unwrap(),
        Bstr::from(b"text".to_vec())
    );
    assert!(matches!(
        Tstr::from_cbor_bytes(&[0x44, b't', b'e', b'x', b't']),
        Err(MimiContentError::DeserializeError(_))
    ));
    assert!(matches!(
        Bstr::from_cbor_bytes(&[0x64, b't', b'e', b'x', b't']),
        Err(MimiContentError::DeserializeError(_))
    ));
    assert!(matches!(
        Tstr::from_cbor_bytes(&[0x01]),
        Err(MimiContentError::DeserializeError(_))
    ));
}

#[test]
fn writing_into_a_buffer_appends() {
    let mut buffer = vec![0xff, 0xfe];
    Tstr::from("a").to_cbor_bytes_into(&mut buffer).unwrap();
    Bstr::from(vec![7]).to_cbor_bytes_into(&mut buffer).unwrap();
    assert_eq!(buffer, vec![0xff, 0xfe, 0x61, b'a', 0x41, 7]);
}

#[test]
fn truncated_and_empty_input_is_refused() {
    assert!(matches!(
        Tstr::from_cbor_bytes(&[]),
        Err(MimiContentError::DeserializeError(_))
    ));
    assert!(matches!(
        Tstr::from_cbor_bytes(&[0x64, b't', b'e']),
        Err(MimiContentError::DeserializeError(_))
    ));
    assert!(matches!(
        Bstr::from_cbor_bytes(&[0x58]),
        Err(MimiContentError::DeserializeError(_))
    ));
}

#[test]
fn text_that_is_no_utf8_is_refused() {
    assert!(matches!(
        Tstr::from_cbor_bytes(&[0x62, 0xc3, 0x28]),
        Err(MimiContentError::DeserializeError(_))
    ));
}
