use raft_blockchain::block::{BlockHeader, BlockType, write_header};
use raft_blockchain::crypto::sha256_hex;
use raft_blockchain::decoding::{read_bytes, read_str, read_u64};
use raft_blockchain::encoding::{write_bytes, write_str, write_u128, write_u32, write_u64};
use raft_blockchain::messages::RaftLogEntry;
use raft_blockchain::text::{decimal_string, to_hex};

#[test]
fn decimal_of_zero_and_of_a_large_number() {
    assert_eq!(decimal_string(0), "0");
    assert_eq!(decimal_string(7), "7");
    assert_eq!(decimal_string(10), "10");
    assert_eq!(decimal_string(1234567890), "1234567890");
    assert_eq!(decimal_string(u128::MAX), u128::MAX.to_string());
}

#[test]
fn hex_is_lowercase_two_digits_per_byte() {
    assert_eq!(to_hex(&[]), "");
    assert_eq!(to_hex(&[0x00, 0x0f, 0xab, 0xff]), "000fabff");
}

#[test]
fn sha256_of_abc() {
    assert_eq!(
        sha256_hex(b"abc"),
        "ba7816bf8f01cfea414140de5dae2223b00361a396177a9cb410ff61f20015ad"
    );
    assert_eq!(
        sha256_hex(b""),
        "e3b0c44298fc1c149afbf4c8996fb92427ae41e4649b934ca495991b7852b855"
    );
}

#[test]
fn integers_are_little_endian_like_bincode() {
    let mut out = Vec::new();
    write_u64(&mut out, 0x0102030405060708);
    assert_eq!(out, bincode::serialize(&0x0102030405060708u64).unwrap());
    let mut out = Vec::new();
    write_u32(&mut out, 7);
    assert_eq!(out, vec![7, 0, 0, 0]);
    let mut out = Vec::new();
    write_u128(&mut out, 1u128 << 64);
    assert_eq!(out, bincode::serialize(&(1u128 << 64)).unwrap());
}

#[test]
fn byte_strings_and_text_carry_a_length_like_bincode() {
    let mut out = Vec::new();
    write_bytes(&mut out, &[1, 2, 3]);
    assert_eq!(out, bincode::serialize(&vec![1u8, 2, 3]).unwrap());
    let mut out = Vec::new();
    write_str(&mut out, "héllo");
    assert_eq!(out, bincode::serialize(&"héllo".to_string()).unwrap());
}

#[test]
fn header_encoding_matches_bincode_of_its_fields() {
    let h = BlockHeader::new_at(3, 1, BlockType::Config, 9, "prev".to_string(), 42, 1_600_000_000);
    let mut out = Vec::new();
    write_header(&mut out, &h);
    let expected = bincode::serialize(&(3u64, 1u64, 1u32, 9u64, 1_600_000_000u128, "prev".to_string(), 42u64)).unwrap();
    assert_eq!(out, expected);
}

#[test]
fn reading_back_what_was_written() {
    let mut out = Vec::new();
    write_u64(&mut out, 99);
    write_bytes(&mut out, &[5, 6]);
    write_str(&mut out, "ok");
    let (x, p) = read_u64(&out, 0).unwrap();
    assert_eq!((x, p), (99, 8));
    let (b, p) = read_bytes(&out, p).unwrap();
    assert_eq!(b, vec![5, 6]);
    let (s, p) = read_str(&out, p).unwrap();
    assert_eq!(s, "ok");
    assert_eq!(p, out.len());
    assert!(read_u64(&out, p).is_none());
}

#[test]
fn reading_refuses_a_length_past_the_end_and_bad_utf8() {
    let mut out = Vec::new();
    write_u64(&mut out, 10);
    out.extend_from_slice(&[1, 2, 3]);
    assert!(read_bytes(&out, 0).is_none());
    let mut bad = Vec::new();
    write_bytes(&mut bad, &[0xff, 0xfe]);
    assert!(read_str(&bad, 0).is_none());
}

#[test]
fn log_entry_round_trip_and_bincode_layout() {
    let e = RaftLogEntry::new(17, "abc".to_string());
    let bytes = e.encode();
    assert_eq!(bytes, bincode::serialize(&(17u64, "abc".to_string())).unwrap());
    let back = RaftLogEntry::decode(&bytes).unwrap();
    assert_eq!(back.block_id, 17);
    assert_eq!(back.block_hash, "abc");
}

#[test]
fn log_entry_decode_refuses_short_or_malformed_data() {
    assert!(RaftLogEntry::decode(&[1, 2, 3]).is_none());
    let mut bytes = Vec::new();
    write_u64(&mut bytes, 1);
    write_u64(&mut bytes, 100);
    assert!(RaftLogEntry::decode(&bytes).is_none());
}

#[test]
fn log_entry_decode_ignores_trailing_bytes() {
    let mut bytes = RaftLogEntry::new(5, "h".to_string()).encode();
    bytes.push(0xAA);
    let back = RaftLogEntry::decode(&bytes).unwrap();
    assert_eq!(back.block_id, 5);
    assert_eq!(back.block_hash, "h");
}
