use ckb_nft::error::Error;
use ckb_nft::factory::Factory;
use ckb_nft::helper::{bytes_equal, parse_dyn_vec_len, DYN_MIN_LEN};
use ckb_nft::nft::Nft;

fn field(content: &[u8]) -> Vec<u8> {
    let mut out = vec![(content.len() % 256) as u8, (content.len() / 256) as u8];
    out.extend_from_slice(content);
    out
}

fn factory_payload(name: &[u8], symbol: &[u8], token_uri: &[u8]) -> Vec<u8> {
    let mut out = field(name);
    out.extend_from_slice(&field(symbol));
    out.extend_from_slice(&field(token_uri));
    out
}

#[test]
fn prefix_is_little_endian_and_counts_itself() {
    assert_eq!(DYN_MIN_LEN, 2);
    assert_eq!(parse_dyn_vec_len(&[0, 0]), 2);
    assert_eq!(parse_dyn_vec_len(&[5, 0]), 7);
    assert_eq!(parse_dyn_vec_len(&[0, 1]), 258);
    assert_eq!(parse_dyn_vec_len(&[0x34, 0x12]), 0x1234 + 2);
    assert_eq!(parse_dyn_vec_len(&[0xff, 0xff]), 65537);
}

#[test]
fn bytes_equal_compares_length_and_content() {
    assert!(bytes_equal(&[], &[]));
    assert!(bytes_equal(&[1, 2, 3], &[1, 2, 3]));
    assert!(!bytes_equal(&[1, 2, 3], &[1, 2]));
    assert!(!bytes_equal(&[1, 2, 3], &[1, 2, 4]));
    assert!(!bytes_equal(&[], &[0]));
}

#[test]
fn nft_decodes_its_field() {
    let raw = field(b"hello");
    let nft = Nft::from_data(&raw).unwrap();
    assert_eq!(nft.data, vec![5, 0, b'h', b'e', b'l', b'l', b'o']);
}

#[test]
fn nft_decodes_an_empty_field() {
    let nft = Nft::from_data(&[0, 0]).unwrap();
    assert_eq!(nft.data, vec![0, 0]);
}

#[test]
fn nft_ignores_bytes_after_the_field() {
    let mut raw = field(b"ab");
    raw.extend_from_slice(&[9, 9, 9]);
    let nft = Nft::from_data(&raw).unwrap();
    assert_eq!(nft.data, vec![2, 0, b'a', b'b']);
}

#[test]
fn nft_rejects_a_buffer_without_prefix() {
    assert_eq!(Nft::from_data(&[]).err(), Some(Error::DataInvalid));
    assert_eq!(Nft::from_data(&[3]).err(), Some(Error::DataInvalid));
}

#[test]
fn nft_rejects_every_truncated_buffer() {
    let raw = field(b"payload");
    for len in 0..raw.len() {
        assert_eq!(Nft::from_data(&raw[..len]).err(), Some(Error::DataInvalid));
    }
    assert!(Nft::from_data(&raw).is_ok());
}

#[test]
fn nft_decodes_a_long_field() {
    let content = vec![7u8; 300];
    let raw = field(&content);
    assert_eq!(raw[0], 44);
    assert_eq!(raw[1], 1);
    let nft = Nft::from_data(&raw).unwrap();
    assert_eq!(nft.data.len(), 302);
    assert_eq!(nft.data, raw);
}

#[test]
fn factory_decodes_three_fields() {
    let raw = factory_payload(b"Name", b"SYM", b"https://uri");
    let factory = Factory::from_data(&raw).unwrap();
    assert_eq!(factory.name, field(b"Name"));
    assert_eq!(factory.symbol, field(b"SYM"));
    assert_eq!(factory.token_uri, field(b"https://uri"));
    assert_eq!(factory.name, vec![4, 0, b'N', b'a', b'm', b'e']);
}

#[test]
fn factory_decodes_three_empty_fields() {
    let factory = Factory::from_data(&[0, 0, 0, 0, 0, 0]).unwrap();
    assert_eq!(factory.name, vec![0, 0]);
    assert_eq!(factory.symbol, vec![0, 0]);
    assert_eq!(factory.token_uri, vec![0, 0]);
}

#[test]
fn factory_ignores_bytes_after_the_last_field() {
    let mut raw = factory_payload(b"a", b"", b"c");
    raw.extend_from_slice(&[1, 2, 3, 4]);
    let factory = Factory::from_data(&raw).unwrap();
    assert_eq!(factory.name, vec![1, 0, b'a']);
    assert_eq!(factory.symbol, vec![0, 0]);
    assert_eq!(factory.token_uri, vec![1, 0, b'c']);
}

#[test]
fn factory_rejects_a_buffer_shorter_than_three_prefixes() {
    for len in 0..6 {
        let raw = vec![0u8; len];
        assert_eq!(Factory::from_data(&raw).err(), Some(Error::DataInvalid));
    }
}

#[test]
fn factory_rejects_a_name_that_leaves_no_room() {
    // the name announces 3 bytes, so 3 + 2 + 4 bytes are needed
    let raw = [3, 0, b'a', b'b', b'c', 0, 0, 0];
    assert_eq!(Factory::from_data(&raw).err(), Some(Error::DataInvalid));
    let raw = [3, 0, b'a', b'b', b'c', 0, 0, 0, 0];
    assert!(Factory::from_data(&raw).is_ok());
}

#[test]
fn factory_rejects_a_symbol_that_leaves_no_room() {
    // empty name, symbol announces 2 bytes, so 2 + 4 + 2 bytes are needed
    let raw = [0, 0, 2, 0, b'x', b'y', 0];
    assert_eq!(Factory::from_data(&raw).err(), Some(Error::DataInvalid));
    let raw = [0, 0, 2, 0, b'x', b'y', 0, 0];
    assert!(Factory::from_data(&raw).is_ok());
}

#[test]
fn factory_rejects_a_token_uri_that_overruns_the_buffer() {
    let raw = [0, 0, 0, 0, 4, 0, b'u', b'r', b'i'];
    assert_eq!(Factory::from_data(&raw).err(), Some(Error::DataInvalid));
    let raw = [0, 0, 0, 0, 4, 0, b'u', b'r', b'i', b'!'];
    let factory = Factory::from_data(&raw).unwrap();
    assert_eq!(factory.token_uri, vec![4, 0, b'u', b'r', b'i', b'!']);
}

#[test]
fn factory_rejects_every_truncated_buffer() {
    let raw = factory_payload(b"Collection", b"COL", b"ipfs://x");
    for len in 0..raw.len() {
        assert_eq!(Factory::from_data(&raw[..len]).err(), Some(Error::DataInvalid));
    }
    assert!(Factory::from_data(&raw).is_ok());
}

#[test]
fn factory_decode_then_compare_equals_the_encoded_fields() {
    let raw = factory_payload(b"Name", b"SYM", b"uri");
    let decoded = Factory::from_data(&raw).unwrap();
    let encoded = Factory { name: field(b"Name"), symbol: field(b"SYM"), token_uri: field(b"uri") };
    assert!(decoded.immutable_equal(&encoded));
    assert!(encoded.immutable_equal(&decoded));
}

#[test]
fn immutable_equal_needs_all_three_fields() {
    let base = Factory { name: field(b"n"), symbol: field(b"s"), token_uri: field(b"u") };
    let same = base.clone();
    assert!(base.immutable_equal(&same));
    let other_name = Factory { name: field(b"m"), symbol: field(b"s"), token_uri: field(b"u") };
    let other_symbol = Factory { name: field(b"n"), symbol: field(b"t"), token_uri: field(b"u") };
    let other_uri = Factory { name: field(b"n"), symbol: field(b"s"), token_uri: field(b"") };
    assert!(!base.immutable_equal(&other_name));
    assert!(!base.immutable_equal(&other_symbol));
    assert!(!base.immutable_equal(&other_uri));
}
