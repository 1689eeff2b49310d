use dsd_native::{MarshalError, TryIntoSafe, TryIntoUnsafe, UnsafeList, UnsafeString};

#[test]
fn scalar_round_trip() {
    let v: u32 = 0xdeadbeef;
    let u = v.try_into_unsafe().unwrap();
    assert_eq!(u, 0xdeadbeef);
    let w = u.try_into_safe().unwrap();
    assert_eq!(w, v);

    let b: u8 = 7;
    assert_eq!(b.try_into_unsafe().unwrap().try_into_safe().unwrap(), 7u8);
    let h: u16 = 300;
    assert_eq!(h.try_into_unsafe().unwrap().try_into_safe().unwrap(), 300u16);
}

#[test]
fn text_round_trip() {
    let s = String::from("HELLO WORLD");
    let u = s.try_into_unsafe().unwrap();
    assert_eq!(u.buffer, b"HELLO WORLD\0".to_vec());
    let w = u.try_into_safe().unwrap();
    assert_eq!(w, "HELLO WORLD");
}

#[test]
fn text_non_ascii_round_trip() {
    let s = String::from("caf\u{e9} \u{4e16}\u{754c}");
    let u = s.clone().try_into_unsafe().unwrap();
    assert_eq!(*u.buffer.last().unwrap(), 0u8);
    let w = u.try_into_safe().unwrap();
    assert_eq!(w, s);
}

#[test]
fn text_with_embedded_null_fails() {
    let s = String::from("bad\0text");
    let r = s.try_into_unsafe();
    assert!(matches!(r, Err(MarshalError::NulByte)));
}

#[test]
fn empty_text_round_trip() {
    let s = String::new();
    let u = s.try_into_unsafe().unwrap();
    assert_eq!(u.buffer, vec![0u8]);
    let w = u.try_into_safe().unwrap();
    assert_eq!(w, "");
}

#[test]
fn invalid_bytes_fail_internalization() {
    let u = UnsafeString { buffer: vec![0xff, 0xfe, 0] };
    let r = u.try_into_safe();
    assert!(matches!(r, Err(MarshalError::InvalidText)));
}

#[test]
fn empty_sequence_is_null() {
    let v: Vec<u32> = Vec::new();
    let u = v.try_into_unsafe().unwrap();
    assert!(u.items.is_none());
    assert_eq!(u.len, 0);
}

#[test]
fn null_container_internalizes_to_empty() {
    let u: UnsafeList<u32> = UnsafeList { items: None, len: 0 };
    let w = u.try_into_safe().unwrap();
    assert!(w.is_empty());
}

#[test]
fn non_empty_sequence_is_not_null() {
    let v: Vec<u32> = vec![42];
    let u = v.try_into_unsafe().unwrap();
    assert!(u.items.is_some());
    assert_eq!(u.len, 1);
}

#[test]
fn sequence_order_is_preserved() {
    let v: Vec<u32> = vec![10, 20, 30];
    let u = v.try_into_unsafe().unwrap();
    assert_eq!(u.len, 3);
    let block = u.items.as_ref().unwrap();
    assert_eq!(block[0], 10);
    assert_eq!(block[1], 20);
    assert_eq!(block[2], 30);
    let w = u.try_into_safe().unwrap();
    assert_eq!(w, vec![10, 20, 30]);
}

#[test]
fn nested_sequences_round_trip() {
    let v: Vec<Vec<u32>> = vec![vec![1, 2], vec![], vec![3]];
    let u = v.try_into_unsafe().unwrap();
    assert_eq!(u.len, 3);
    let block = u.items.as_ref().unwrap();
    assert!(block[0].items.is_some());
    assert!(block[1].items.is_none());
    assert_eq!(block[1].len, 0);
    let w = u.try_into_safe().unwrap();
    assert_eq!(w, vec![vec![1, 2], vec![], vec![3]]);
}

#[test]
fn sequence_of_text_round_trip() {
    let v: Vec<String> = vec![String::from("alpha"), String::from("beta")];
    let u = v.try_into_unsafe().unwrap();
    let block = u.items.as_ref().unwrap();
    assert_eq!(block[0].buffer, b"alpha\0".to_vec());
    assert_eq!(block[1].buffer, b"beta\0".to_vec());
    let w = u.try_into_safe().unwrap();
    assert_eq!(w, vec!["alpha".to_string(), "beta".to_string()]);
}

#[test]
fn failing_element_aborts_whole_sequence() {
    let v: Vec<String> = vec![String::from("fine"), String::from("bad\0one")];
    let r = v.try_into_unsafe();
    assert!(matches!(r, Err(MarshalError::NulByte)));
}

#[test]
fn failing_element_aborts_whole_internalization() {
    let u: UnsafeList<UnsafeString> = UnsafeList {
        items: Some(vec![
            UnsafeString { buffer: b"good\0".to_vec() },
            UnsafeString { buffer: vec![0xff, 0] },
        ]),
        len: 2,
    };
    let r = u.try_into_safe();
    assert!(matches!(r, Err(MarshalError::InvalidText)));
}

#[test]
fn degenerate_non_null_empty_block_internalizes() {
    let u: UnsafeList<u32> = UnsafeList { items: Some(Vec::new()), len: 0 };
    let w = u.try_into_safe().unwrap();
    assert!(w.is_empty());
}
