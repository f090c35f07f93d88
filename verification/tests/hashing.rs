use daemos::hashing::{content_hash, FNV_OFFSET_BASIS};

#[test]
fn content_hash_of_nothing_is_offset_basis() {
    assert_eq!(content_hash(&[]), FNV_OFFSET_BASIS);
    assert_eq!(content_hash(&[]), 0xcbf2_9ce4_8422_2325);
}

#[test]
fn content_hash_known_values() {
    assert_eq!(content_hash(b"a"), 0xaf63_dc4c_8601_ec8c);
    assert_eq!(content_hash(b"foobar"), 0x8594_4171_f739_67e8);
}

#[test]
fn content_hash_tells_contents_apart() {
    assert_ne!(content_hash(b"track one"), content_hash(b"track two"));
    assert_eq!(content_hash(b"same bytes"), content_hash(b"same bytes"));
}
