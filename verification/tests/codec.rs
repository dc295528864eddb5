use monoledger::codec::decode;
use monoledger::codec::decode_state;
use monoledger::codec::encode;
use monoledger::codec::hex_decode;
use monoledger::codec::hex_encode;
use monoledger::codec::lease_name;
use monoledger::codec::parse_lease_name;
use monoledger::codec::CodecError;
use monoledger::codec::LedgerTree;
use monoledger::codec::TreeEntry;

#[test]
fn hex_encode_bytes() {
    assert_eq!(hex_encode(&[]), Vec::<u8>::new());
    assert_eq!(hex_encode(&[0x00, 0xff, 0x1a]), b"00ff1a".to_vec());
    assert_eq!(hex_encode(&[0xde, 0xad, 0xbe, 0xef]), b"deadbeef".to_vec());
}

#[test]
fn hex_decode_bytes() {
    assert_eq!(hex_decode(b"00ff1a"), Some(vec![0x00, 0xff, 0x1a]));
    assert_eq!(hex_decode(b"DEADBEEF"), Some(vec![0xde, 0xad, 0xbe, 0xef]));
    assert_eq!(hex_decode(b""), Some(Vec::new()));
    // odd length
    assert_eq!(hex_decode(b"abc"), None);
    // not a hex digit
    assert_eq!(hex_decode(b"0g"), None);
}

#[test]
fn lease_name_is_little_endian_hex() {
    assert_eq!(lease_name(0), b"0000000000000000".to_vec());
    assert_eq!(lease_name(1), b"0100000000000000".to_vec());
    assert_eq!(lease_name(0x0123456789abcdef), b"efcdab8967452301".to_vec());
}

#[test]
fn parse_lease_name_reads_back() {
    assert_eq!(parse_lease_name(b"0000000000000000"), Some(0));
    assert_eq!(parse_lease_name(b"efcdab8967452301"), Some(0x0123456789abcdef));
    // uppercase digits decode too
    assert_eq!(parse_lease_name(b"EFCDAB8967452301"), Some(0x0123456789abcdef));
    // wrong length
    assert_eq!(parse_lease_name(b"00"), None);
    assert_eq!(parse_lease_name(b"000000000000000000"), None);
    // not hex
    assert_eq!(parse_lease_name(b"zz00000000000000"), None);
}

#[test]
fn codec_round_trip() {
    let tree = encode(b"hello ledger", 42);
    let (data, lease) = decode(&tree).unwrap();
    assert_eq!(data, b"hello ledger".to_vec());
    assert_eq!(lease, 42);

    let tree = encode(b"", u64::MAX);
    let (data, lease) = decode(&tree).unwrap();
    assert_eq!(data, Vec::<u8>::new());
    assert_eq!(lease, u64::MAX);
}

#[test]
fn decode_rejects_extra_entries() {
    let one = encode(b"a", 1);
    let two = encode(b"b", 2);
    let tree = LedgerTree {
        entries: vec![
            TreeEntry {
                name: one.entries[0].name.clone(),
                data: one.entries[0].data.clone(),
            },
            TreeEntry {
                name: two.entries[0].name.clone(),
                data: two.entries[0].data.clone(),
            },
        ],
    };
    assert_eq!(decode(&tree), Err(CodecError::ExtraEntries));
}

#[test]
fn decode_rejects_bad_entry_name() {
    let tree = LedgerTree {
        entries: vec![TreeEntry { name: b"not-a-lease".to_vec(), data: b"x".to_vec() }],
    };
    assert_eq!(decode(&tree), Err(CodecError::BadEntryName));
}

#[test]
fn absent_ledger_decodes_as_empty_and_free() {
    let (data, lease) = decode_state(&None).unwrap();
    assert_eq!(data, Vec::<u8>::new());
    assert_eq!(lease, 0);
}

#[test]
fn present_ledger_decodes_through_state() {
    let tree = encode(b"payload", 7);
    let (data, lease) = decode_state(&Some(tree)).unwrap();
    assert_eq!(data, b"payload".to_vec());
    assert_eq!(lease, 7);
}
