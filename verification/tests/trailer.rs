use tlvgen::tlv::Flags;
use tlvgen::tlv::TlvGen;
use tlvgen::tlv::TlvKinds;

const SHA256_EMPTY: [u8; 32] = [
    0xe3, 0xb0, 0xc4, 0x42, 0x98, 0xfc, 0x1c, 0x14, 0x9a, 0xfb, 0xf4, 0xc8, 0x99, 0x6f, 0xb9,
    0x24, 0x27, 0xae, 0x41, 0xe4, 0x64, 0x9b, 0x93, 0x4c, 0xa4, 0x95, 0x99, 0x1b, 0x78, 0x52,
    0xb8, 0x55,
];

const SHA256_ABC: [u8; 32] = [
    0xba, 0x78, 0x16, 0xbf, 0x8f, 0x01, 0xcf, 0xea, 0x41, 0x41, 0x40, 0xde, 0x5d, 0xae, 0x22,
    0x23, 0xb0, 0x03, 0x61, 0xa3, 0x96, 0x17, 0x7a, 0x9c, 0xb4, 0x10, 0xff, 0x61, 0xf2, 0x00,
    0x15, 0xad,
];

fn expected_trailer(digest: &[u8; 32]) -> Vec<u8> {
    let mut expected = vec![0x01u8, 0x00, 0x20, 0x00];
    expected.extend_from_slice(digest);
    expected
}

#[test]
fn flags_hash_only_is_sha256_bit() {
    let gen = TlvGen::new_hash_only();
    assert_eq!(gen.get_flags(), 0x02);
}

#[test]
fn flags_unchanged_by_streaming() {
    let mut gen = TlvGen::new_hash_only();
    gen.add_bytes(b"some image payload");
    assert_eq!(gen.get_flags(), 0x02);
}

#[test]
fn size_is_fixed_at_construction() {
    let mut gen = TlvGen::new_hash_only();
    assert_eq!(gen.get_size(), 36);
    gen.add_bytes(b"header bytes");
    assert_eq!(gen.get_size(), 36);
    gen.add_bytes(b"");
    gen.add_bytes(b"payload bytes");
    assert_eq!(gen.get_size(), 36);
}

#[test]
fn empty_stream_trailer_holds_empty_digest() {
    let gen = TlvGen::new_hash_only();
    let trailer = gen.make_tlv();
    assert_eq!(trailer, expected_trailer(&SHA256_EMPTY));
}

#[test]
fn abc_scenario_trailer() {
    let mut gen = TlvGen::new_hash_only();
    gen.add_bytes(b"abc");
    let trailer = gen.make_tlv();
    assert_eq!(trailer.len(), 36);
    assert_eq!(trailer, expected_trailer(&SHA256_ABC));
}

#[test]
fn trailer_length_equals_get_size() {
    let mut gen = TlvGen::new_hash_only();
    let size = gen.get_size();
    gen.add_bytes(b"covered data of some length");
    let trailer = gen.make_tlv();
    assert_eq!(trailer.len(), size as usize);
}

#[test]
fn chunked_streaming_matches_single_call() {
    let whole = b"the quick brown fox jumps over the lazy dog";

    let mut one_shot = TlvGen::new_hash_only();
    one_shot.add_bytes(whole);
    let expected = one_shot.make_tlv();

    let mut chunked = TlvGen::new_hash_only();
    chunked.add_bytes(&whole[..7]);
    chunked.add_bytes(&whole[7..7]);
    chunked.add_bytes(&whole[7..20]);
    chunked.add_bytes(&whole[20..]);
    assert_eq!(chunked.make_tlv(), expected);
}

#[test]
fn chunk_list_matches_single_call() {
    let whole = b"firmware image header then payload";

    let mut one_shot = TlvGen::new_hash_only();
    one_shot.add_bytes(whole);
    let expected = one_shot.make_tlv();

    let chunks: Vec<Vec<u8>> = vec![
        whole[..5].to_vec(),
        Vec::new(),
        whole[5..9].to_vec(),
        whole[9..].to_vec(),
    ];
    let mut listed = TlvGen::new_hash_only();
    listed.add_byte_chunks(&chunks);
    assert_eq!(listed.make_tlv(), expected);
}

#[test]
fn digest_matches_ring_one_shot() {
    let data = b"cross-check against the one-shot digest";
    let mut gen = TlvGen::new_hash_only();
    gen.add_bytes(data);
    let trailer = gen.make_tlv();
    let digest = ring::digest::digest(&ring::digest::SHA256, data);
    assert_eq!(&trailer[4..], digest.as_ref());
}

#[test]
fn flag_bits_are_distinct() {
    assert_eq!(Flags::PIC.bit(), 0x01);
    assert_eq!(Flags::SHA256.bit(), 0x02);
    assert_eq!(Flags::PKCS15_RSA2048_SHA256.bit(), 0x04);
    assert_eq!(Flags::ECDSA224_SHA256.bit(), 0x08);
    assert_eq!(Flags::NON_BOOTABLE.bit(), 0x10);
    assert_eq!(Flags::ECDSA256_SHA256.bit(), 0x20);
    assert_eq!(Flags::PKCS1_PSS_RSA2048_SHA256.bit(), 0x40);
}

#[test]
fn kind_identifiers() {
    assert_eq!(TlvKinds::SHA256.id(), 1);
    assert_eq!(TlvKinds::RSA2048.id(), 2);
    assert_eq!(TlvKinds::ECDSA224.id(), 3);
    assert_eq!(TlvKinds::ECDSA256.id(), 4);
}

#[test]
fn entry_header_layout() {
    let mut gen = TlvGen::new_hash_only();
    gen.add_bytes(b"abc");
    let trailer = gen.make_tlv();
    assert_eq!(trailer[0], 0x01);
    assert_eq!(trailer[1], 0x00);
    assert_eq!(u16::from_le_bytes([trailer[2], trailer[3]]), 32);
    assert_eq!(&trailer[4..], &SHA256_ABC);
}
