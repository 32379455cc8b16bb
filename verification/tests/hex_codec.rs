use pool_client::hexbytes::{
    byte32_to_hex, bytes_to_hex, deserialize_target, hex64le_to_int, hex_padded_to_u32,
    hex_to_varbyte, u32_to_hex_padded,
};

#[test]
fn nonce_encoding_is_fixed_width_little_endian() {
    assert_eq!(u32_to_hex_padded(0x12345678), "78563412");
    assert_eq!(u32_to_hex_padded(0), "00000000");
    assert_eq!(u32_to_hex_padded(1), "01000000");
    assert_eq!(u32_to_hex_padded(0xb7d10000), "0000d1b7");
    assert_eq!(u32_to_hex_padded(0xffffffff), "ffffffff");
}

#[test]
fn nonce_round_trips() {
    let samples: Vec<u32> = vec![0, 1, 0x12345678, 0xb7d10000, 0xffffffff, 53687];
    for n in samples {
        let s = u32_to_hex_padded(n);
        assert_eq!(s.len(), 8);
        assert_eq!(hex_padded_to_u32(&s), Some(n));
    }
    assert_eq!(hex_padded_to_u32("123456"), None);
    assert_eq!(hex_padded_to_u32("123456789a"), None);
    assert_eq!(hex_padded_to_u32("1234567x"), None);
}

#[test]
fn result_encoding_is_64_chars_and_round_trips() {
    let mut b = [0u8; 32];
    let mut i = 0usize;
    while i < 32 {
        b[i] = i as u8;
        i += 1;
    }
    let s = byte32_to_hex(&b);
    assert_eq!(s.len(), 64);
    assert_eq!(
        s,
        "000102030405060708090a0b0c0d0e0f101112131415161718191a1b1c1d1e1f"
    );
    let back = hex_to_varbyte(&s).unwrap();
    assert_eq!(back, b.to_vec());

    let zero = byte32_to_hex(&[0u8; 32]);
    assert_eq!(zero.len(), 64);
    assert!(zero.chars().all(|c| c == '0'));
}

#[test]
fn varbyte_decoding() {
    assert_eq!(hex_to_varbyte("0a0b"), Some(vec![0x0a, 0x0b]));
    assert_eq!(hex_to_varbyte("FF00"), Some(vec![0xff, 0x00]));
    assert_eq!(hex_to_varbyte(""), Some(vec![]));
    assert_eq!(hex_to_varbyte("abc"), None);
    assert_eq!(hex_to_varbyte("zz"), None);
    assert_eq!(bytes_to_hex(&[0xde, 0xad, 0xbe, 0xef]), "deadbeef");
}

#[test]
fn compact_target_is_expanded() {
    // 8 hex chars or fewer: the low 32 bits are replicated upward.
    assert_eq!(deserialize_target("b7d10000"), Some(0x0000d1b70000d1b7));
    assert_eq!(deserialize_target("b7d1"), Some(0x0000d1b70000d1b7));
    assert_eq!(deserialize_target("04"), Some(0x0000000400000004));
    // longer hex: the literal 64-bit little-endian value.
    assert_eq!(deserialize_target("b7d1000000000000"), Some(0x000000000000d1b7));
    assert_eq!(deserialize_target("ffffffffffffffff"), Some(0xffffffffffffffff));
    assert_eq!(deserialize_target("0102030405"), Some(0x0000000504030201));
}

#[test]
fn malformed_targets_are_rejected() {
    assert_eq!(deserialize_target(""), None);
    assert_eq!(deserialize_target("b7d"), None);
    assert_eq!(deserialize_target("xyzw"), None);
    assert_eq!(deserialize_target("010203040506070809"), None);
    assert_eq!(hex64le_to_int("b7d10000"), Some((0x0000d1b7, 8)));
    assert_eq!(hex64le_to_int(""), None);
}
