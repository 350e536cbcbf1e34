use hdnode::account::Address;
use hdnode::account::Signature;
use hdnode::json::Json;
use hdnode::serialization::decode_bytes;
use hdnode::serialization::encode_bytes;
use hdnode::serialization::Addresses;
use hdnode::serialization::Bytes;
use hdnode::serialization::DecodeError;
use hdnode::serialization::Quantity;
use hdnode::serialization::Str;

#[test]
fn bytes_in_hex() {
    assert_eq!(encode_bytes(&[]), "0x");
    assert_eq!(encode_bytes(&[0x00, 0x0f, 0xa0, 0xff]), "0x000fa0ff");
    assert_eq!(Bytes(b"hello".to_vec()).encode(), "0x68656c6c6f");
    assert_eq!(decode_bytes("0x68656c6c6f"), Ok(b"hello".to_vec()));
    assert_eq!(decode_bytes("0x68656C6C6F"), Ok(b"hello".to_vec()));
    assert_eq!(decode_bytes("0x"), Ok(vec![]));
}

#[test]
fn bytes_that_are_none() {
    assert_eq!(decode_bytes("68656c6c6f"), Err(DecodeError::MissingPrefix));
    assert_eq!(decode_bytes(""), Err(DecodeError::MissingPrefix));
    assert_eq!(decode_bytes("0X00"), Err(DecodeError::MissingPrefix));
    assert_eq!(decode_bytes("0x123"), Err(DecodeError::InvalidDigits));
    assert_eq!(decode_bytes("0x0g"), Err(DecodeError::InvalidDigits));
    assert_eq!(decode_bytes("0x\u{e9}0"), Err(DecodeError::InvalidDigits));
}

#[test]
fn fixed_bytes_have_their_width() {
    let slot = Bytes([0xabu8; 32]);
    let text = slot.encode_fixed();
    assert_eq!(text.len(), 2 * 32 + 2);
    assert_eq!(text, format!("0x{}", "ab".repeat(32)));
    assert_eq!(Bytes::<[u8; 32]>::decode_fixed(&text).unwrap().0, [0xabu8; 32]);
    assert_eq!(
        Bytes::<[u8; 32]>::decode_fixed("0xabab").unwrap_err(),
        DecodeError::InvalidLength
    );
    assert_eq!(
        Bytes::<[u8; 2]>::decode_fixed("abab").unwrap_err(),
        DecodeError::MissingPrefix
    );
    assert_eq!(
        Bytes::<[u8; 2]>::decode_fixed("0xabzz").unwrap_err(),
        DecodeError::InvalidDigits
    );
    assert_eq!(Bytes::<[u8; 0]>::decode_fixed("0x").unwrap().0, [0u8; 0]);
}

#[test]
fn every_byte_reads_back() {
    let all: Vec<u8> = (0..=255).collect();
    let text = Bytes(all.clone()).encode();
    assert_eq!(text.len(), 2 * 256 + 2);
    assert!(text[2..].chars().all(|c| matches!(c, '0'..='9' | 'a'..='f')));
    assert_eq!(Bytes::<Vec<u8>>::decode(&text).unwrap().0, all);
}

#[test]
fn signature_on_the_wire() {
    let signature = Signature { r: [1; 32], s: [2; 32], v: 27 };
    let bytes = Bytes::from_signature(signature);
    assert_eq!(&bytes.0[..32], &[1u8; 32]);
    assert_eq!(&bytes.0[32..64], &[2u8; 32]);
    assert_eq!(bytes.0[64], 27);
    assert_eq!(bytes.encode_fixed().len(), 132);
}

#[test]
fn quantities_in_hex() {
    assert_eq!(Quantity::new(0).encode(), "0x0");
    assert_eq!(Quantity::new(1).encode(), "0x1");
    assert_eq!(Quantity::new(0x5208).encode(), "0x5208");
    assert_eq!(Quantity::new(255).encode(), "0xff");
    assert_eq!(Quantity { hi: 1, lo: 0 }.encode(), format!("0x1{}", "0".repeat(32)));
    assert_eq!(Quantity { hi: u128::MAX, lo: u128::MAX }.encode(), format!("0x{}", "f".repeat(64)));
    assert_eq!(Quantity::decode("0x0"), Ok(Quantity::new(0)));
    assert_eq!(Quantity::decode("0x5208"), Ok(Quantity::new(21000)));
    assert_eq!(Quantity::decode("0xFF"), Ok(Quantity::new(255)));
    assert_eq!(Quantity::decode("0x00ff"), Ok(Quantity::new(255)));
    assert_eq!(
        Quantity::decode(&format!("0x1{}", "0".repeat(32))),
        Ok(Quantity { hi: 1, lo: 0 })
    );
    assert_eq!(
        Quantity::decode(&format!("0x{}", "f".repeat(64))),
        Ok(Quantity { hi: u128::MAX, lo: u128::MAX })
    );
}

#[test]
fn quantities_that_are_none() {
    assert_eq!(Quantity::decode("ff"), Err(DecodeError::MissingPrefix));
    assert_eq!(Quantity::decode("0x"), Err(DecodeError::InvalidDigits));
    assert_eq!(Quantity::decode("0xg"), Err(DecodeError::InvalidDigits));
    assert_eq!(Quantity::decode("0x-1"), Err(DecodeError::InvalidDigits));
    assert_eq!(Quantity::decode("0x 1"), Err(DecodeError::InvalidDigits));
    assert_eq!(
        Quantity::decode(&format!("0x1{}", "0".repeat(64))),
        Err(DecodeError::InvalidDigits)
    );
}

#[test]
fn quantities_read_back() {
    for q in [
        Quantity::new(0),
        Quantity::new(1),
        Quantity::new(15),
        Quantity::new(16),
        Quantity::new(u128::MAX),
        Quantity { hi: 1, lo: 0 },
        Quantity { hi: 0xdead_beef, lo: 42 },
        Quantity { hi: u128::MAX, lo: u128::MAX },
    ] {
        let text = q.encode();
        assert!(text.starts_with("0x"));
        let digits = &text[2..];
        assert!(digits == "0" || !digits.starts_with('0'));
        assert!(digits.chars().all(|c| matches!(c, '0'..='9' | 'a'..='f')));
        assert_eq!(Quantity::decode(&text), Ok(q));
    }
}

#[test]
fn quantities_in_other_radixes() {
    assert_eq!(Quantity::from_str_radix("1337", 10), Ok(Quantity::new(1337)));
    assert_eq!(Quantity::from_str_radix("+7", 10), Ok(Quantity::new(7)));
    assert_eq!(Quantity::from_str_radix("z", 36), Ok(Quantity::new(35)));
    assert_eq!(Quantity::from_str_radix("a", 10), Err(DecodeError::InvalidDigits));
    assert_eq!(Quantity::from_str_radix("", 10), Err(DecodeError::InvalidDigits));
    assert_eq!(Quantity::from_str_radix("+", 10), Err(DecodeError::InvalidDigits));
}

#[test]
fn quantities_add_and_multiply_within_256_bits() {
    let max = Quantity { hi: u128::MAX, lo: u128::MAX };
    assert_eq!(Quantity::new(2).checked_add(Quantity::new(3)), Some(Quantity::new(5)));
    assert_eq!(
        Quantity::new(u128::MAX).checked_add(Quantity::new(1)),
        Some(Quantity { hi: 1, lo: 0 })
    );
    assert_eq!(max.checked_add(Quantity::new(1)), None);
    assert_eq!(Quantity::new(6).checked_mul(Quantity::new(7)), Some(Quantity::new(42)));
    assert_eq!(
        Quantity::new(1 << 127).checked_mul(Quantity::new(2)),
        Some(Quantity { hi: 1, lo: 0 })
    );
    assert_eq!(max.checked_mul(Quantity::new(2)), None);
}

#[test]
fn addresses_in_hex() {
    let mut bytes = [0u8; 20];
    bytes[0] = 0xAB;
    bytes[19] = 0x01;
    let text = Str(Address(bytes)).encode();
    assert_eq!(text, "0xab00000000000000000000000000000000000001");
    assert_eq!(Str::<Address>::decode(&text).unwrap().0, Address(bytes));
    assert_eq!(
        Str::<Address>::decode("0xAB00000000000000000000000000000000000001").unwrap().0,
        Address(bytes)
    );
    assert_eq!(Str::<Address>::decode("0xab").unwrap_err(), DecodeError::InvalidLength);
    assert_eq!(
        Str::<Address>::decode("ab00000000000000000000000000000000000001").unwrap_err(),
        DecodeError::MissingPrefix
    );
}

#[test]
fn addresses_as_a_list() {
    let list = [Address([1; 20]), Address([2; 20])];
    assert_eq!(
        Addresses(&list).to_json(),
        Json::Array(vec![
            Json::String(format!("0x{}", "01".repeat(20))),
            Json::String(format!("0x{}", "02".repeat(20))),
        ]),
    );
    assert_eq!(Addresses(&[]).to_json(), Json::Array(vec![]));
}

#[test]
fn addresses_are_told_apart_by_their_bytes() {
    assert_eq!(Address([1; 20]), Address([1; 20]));
    assert_ne!(Address([1; 20]), Address([2; 20]));
}
