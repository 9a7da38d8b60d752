use minichain::hashing::sha256;
use minichain::mresult::MResult;
use minichain::tx::{Transaction, TxIn, TxOut};
use minichain::varint::{decode_varint, encode_varint, DecodeError};

fn round_trip(n: u64, width: usize) {
    let encoded = encode_varint(n);
    assert_eq!(encoded.len(), width);
    match decode_varint(&encoded) {
        MResult::Success((value, used)) => {
            assert_eq!(value, n);
            assert_eq!(used, width);
        }
        MResult::Failure(e) => panic!("decode failed: {:?}", e),
    }
}

#[test]
fn varint_round_trip_at_each_boundary() {
    round_trip(0, 1);
    round_trip(252, 1);
    round_trip(253, 3);
    round_trip(65535, 3);
    round_trip(65536, 5);
    round_trip(4294967295, 5);
    round_trip(4294967296, 9);
    round_trip(u64::MAX, 9);
}

#[test]
fn varint_exact_bytes() {
    assert_eq!(encode_varint(100), vec![0x64]);
    assert_eq!(encode_varint(0x1234), vec![0xfd, 0x34, 0x12]);
    assert_eq!(encode_varint(0x12345678), vec![0xfe, 0x78, 0x56, 0x34, 0x12]);
    assert_eq!(
        encode_varint(0x0102030405060708),
        vec![0xff, 0x08, 0x07, 0x06, 0x05, 0x04, 0x03, 0x02, 0x01]
    );
}

#[test]
fn varint_decode_ignores_trailing_bytes() {
    let r = decode_varint(&[0xfd, 0x00, 0x01, 0xaa, 0xbb]);
    assert!(r.is_ok());
    assert_eq!(r.unwrap(), (256, 3));
}

#[test]
fn varint_decode_empty_fails() {
    let r = decode_varint(&[]);
    assert!(r.is_err());
    assert_eq!(r.unwrap_err(), DecodeError::InsufficientData);
}

#[test]
fn varint_decode_short_two_byte_form_fails() {
    let r = decode_varint(&[0xfd, 0x01]);
    assert_eq!(r.unwrap_err(), DecodeError::InsufficientData);
}

#[test]
fn varint_decode_short_wide_forms_fail() {
    assert_eq!(
        decode_varint(&[0xfe, 1, 2, 3]).unwrap_err(),
        DecodeError::InsufficientData
    );
    assert_eq!(
        decode_varint(&[0xff, 1, 2, 3, 4, 5, 6, 7]).unwrap_err(),
        DecodeError::InsufficientData
    );
}

#[test]
fn sha256_of_empty_text() {
    assert_eq!(
        sha256(""),
        "e3b0c44298fc1c149afbf4c8996fb92427ae41e4649b934ca495991b7852b855"
    );
}

#[test]
fn sha256_known_value_and_shape() {
    let h = sha256("abc");
    assert_eq!(
        h,
        "ba7816bf8f01cfea414140de5dae2223b00361a396177a9cb410ff61f20015ad"
    );
    for s in ["", "a", "hello world", "ünïcödé"] {
        let d = sha256(s);
        assert_eq!(d.len(), 64);
        assert!(d.chars().all(|c| c.is_ascii_digit() || ('a'..='f').contains(&c)));
        assert_eq!(d, sha256(s));
    }
}

#[test]
fn txout_serialize_exact_bytes() {
    let out = TxOut::new(String::from("a914ff"), 1);
    assert_eq!(
        out.serialize(),
        vec![1, 0, 0, 0, 0, 0, 0, 0, 3, 0xa9, 0x14, 0xff]
    );
}

#[test]
fn txout_round_trip() {
    let cases = [
        ("00", 0u64),
        ("76a914000000000000000000000000000000000000000088ac", 5000000000),
        ("ff", u64::MAX),
        ("0123456789abcdef", 42),
    ];
    for (addr, sats) in cases {
        let out = TxOut::new(String::from(addr), sats);
        let bytes = out.serialize();
        let back = TxOut::deserialize(&bytes).unwrap();
        assert_eq!(back.satoshis, sats);
        assert_eq!(back.public_address, addr);
    }
    let long: String = (0..64).map(|i| format!("{:02x}", i * 3)).collect();
    let out = TxOut::new(long.clone(), 7);
    let back = TxOut::deserialize(&out.serialize()).unwrap();
    assert_eq!(back.public_address, long);
    assert_eq!(back.satoshis, 7);
}

#[test]
fn txout_deserialize_renders_lowercase_hex() {
    let bytes = vec![5, 0, 0, 0, 0, 0, 0, 0, 2, 0xab, 0xcd];
    let out = TxOut::deserialize(&bytes).unwrap();
    assert_eq!(out.satoshis, 5);
    assert_eq!(out.public_address, "abcd");
}

#[test]
fn txout_deserialize_truncated_amount_fails() {
    let r = TxOut::deserialize(&[1, 2, 3, 4, 5, 6, 7]);
    assert_eq!(r.unwrap_err(), DecodeError::InsufficientData);
    let r = TxOut::deserialize(&[]);
    assert_eq!(r.unwrap_err(), DecodeError::InsufficientData);
}

#[test]
fn txout_deserialize_missing_length_fails() {
    let r = TxOut::deserialize(&[1, 0, 0, 0, 0, 0, 0, 0]);
    assert_eq!(r.unwrap_err(), DecodeError::InsufficientData);
}

#[test]
fn txout_deserialize_truncated_script_fails() {
    let out = TxOut::new(String::from("76a91488ac"), 9);
    let bytes = out.serialize();
    let r = TxOut::deserialize(&bytes[..bytes.len() - 1]);
    assert_eq!(r.unwrap_err(), DecodeError::InsufficientData);
}

#[test]
fn txin_serialize_layout() {
    let prev = format!("{}{}", "01", "00".repeat(31));
    let input = TxIn::new(prev, 2, String::from("abcd"));
    let mut expected = vec![0u8; 31];
    expected.push(1);
    expected.extend([2, 0, 0, 0, 0, 0, 0, 0]);
    expected.push(4);
    expected.extend([0xab, 0xcd]);
    assert_eq!(input.serialize(), expected);
}

#[test]
fn transaction_golden_hex() {
    let input = TxIn::new("00".repeat(32), 0, String::new());
    let address = format!("76a914{}88ac", "00".repeat(20));
    let output = TxOut::new(address.clone(), 5000000000);
    let tx = Transaction::new(vec![input], vec![output], String::new(), 0);
    let expected = format!(
        "{}{}{}{}{}{}{}{}{}{}{}",
        "01000000",
        "01",
        "00".repeat(32),
        "0000000000000000",
        "00",
        "ffffffff",
        "01",
        "00f2052a01000000",
        "19",
        address,
        "00000000"
    );
    let hex = tx.serialize();
    assert!(hex.starts_with("01000000"));
    assert!(hex.ends_with("00000000"));
    assert_eq!(hex, expected);
}

#[test]
fn transaction_empty_with_locktime() {
    let tx = Transaction::new(vec![], vec![], String::from("id"), 0x01020304);
    assert_eq!(tx.serialize(), "01000000000004030201");
}
