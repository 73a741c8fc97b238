use actor_util::util::{get_public_key_from_bytes, url_decode};
use actor_util::vmh::decode_outbound_sequence;
use actor_util::string_map::StringMap;

#[test]
fn url_decode_normalizes_valid_urls() {
    assert_eq!(
        url_decode("https://example.com"),
        Ok("https://example.com/".to_string())
    );
    assert_eq!(
        url_decode("HTTPS://EXAMPLE.COM/Path"),
        Ok("https://example.com/Path".to_string())
    );
}

#[test]
fn url_decode_rejects_non_urls() {
    assert!(url_decode("not a url").is_err());
}

#[test]
fn public_key_is_the_last_32_bytes_of_a_keypair() {
    // The public half must be a valid curve point; this is the compressed
    // ed25519 base point.
    let mut key_bytes = vec![0u8; 32];
    key_bytes.push(0x58);
    key_bytes.extend(std::iter::repeat(0x66).take(31));
    assert_eq!(key_bytes.len(), 64);
    let pk = get_public_key_from_bytes(&key_bytes).unwrap();
    assert_eq!(pk.to_vec(), key_bytes[32..].to_vec());
}

#[test]
fn public_key_extraction_rejects_wrong_lengths() {
    assert!(get_public_key_from_bytes(&[1, 2, 3]).is_err());
    assert!(get_public_key_from_bytes(&[0u8; 65]).is_err());
}

#[test]
fn outbound_sequence_is_little_endian() {
    assert_eq!(decode_outbound_sequence(&[1, 0, 0, 0]), Ok(1));
    assert_eq!(
        decode_outbound_sequence(&[0x78, 0x56, 0x34, 0x12]),
        Ok(0x12345678)
    );
    assert_eq!(decode_outbound_sequence(&[1, 0, 0, 0, 99]), Ok(1));
    assert!(decode_outbound_sequence(&[1, 2, 3]).is_err());
}

#[test]
fn string_map_inserts_removes_and_replaces() {
    let mut m: StringMap<u64> = StringMap::new();
    assert!(!m.contains_key("a"));
    m.insert("a".to_string(), 1);
    m.insert("b".to_string(), 2);
    assert!(m.contains_key("a"));
    assert_eq!(m.entry_count(), 2);
    m.insert("a".to_string(), 10);
    assert_eq!(m.entry_count(), 2);
    assert_eq!(m.remove("a"), Some(10));
    assert_eq!(m.remove("a"), None);
    assert!(!m.contains_key("a"));
    assert!(m.contains_key("b"));
    let e = m.entry_at(0);
    assert_eq!(e.0, "b");
    assert_eq!(*e.1, 2);
}
