use lbclient::{
    create_signing_key, delete_signing_key, derive_public, encode, generate, get_key_blob,
    get_signing_key_pem, get_wallet_names, load_signing_key, load_verifying_key,
    store_signing_key, DeletionError, KeyStore, LoadingError,
};

const GENERATOR: [u8; 65] = [
    0x04, 0x6b, 0x17, 0xd1, 0xf2, 0xe1, 0x2c, 0x42, 0x47, 0xf8, 0xbc, 0xe6, 0xe5, 0x63, 0xa4, 0x40,
    0xf2, 0x77, 0x03, 0x7d, 0x81, 0x2d, 0xeb, 0x33, 0xa0, 0xf4, 0xa1, 0x39, 0x45, 0xd8, 0x98, 0xc2,
    0x96, 0x4f, 0xe3, 0x42, 0xe2, 0xfe, 0x1a, 0x7f, 0x9b, 0x8e, 0xe7, 0xeb, 0x4a, 0x7c, 0x0f, 0x9e,
    0x16, 0x2b, 0xce, 0x33, 0x57, 0x6b, 0x31, 0x5e, 0xce, 0xcb, 0xb6, 0x40, 0x68, 0x37, 0xbf, 0x51,
    0xf5,
];

/// Standard base64 with padding.
fn base64(bytes: &[u8]) -> String {
    fn digit(value: u32) -> char {
        let code = match value {
            0..=25 => b'A' as u32 + value,
            26..=51 => b'a' as u32 + value - 26,
            52..=61 => b'0' as u32 + value - 52,
            62 => b'+' as u32,
            _ => b'/' as u32,
        };
        char::from_u32(code).expect("ascii")
    }
    let mut text = String::new();
    for chunk in bytes.chunks(3) {
        let mut group: u32 = 0;
        for i in 0..3 {
            group = (group << 8) | u32::from(*chunk.get(i).unwrap_or(&0));
        }
        for i in 0..4 {
            if i <= chunk.len() {
                text.push(digit((group >> (18 - 6 * i)) & 0x3f));
            } else {
                text.push('=');
            }
        }
    }
    text
}

/// The PKCS#8 document of a P-256 key: version 0, the algorithm `ecPublicKey`
/// with the curve `prime256v1`, and inside an octet string the SEC1 structure of
/// version 1 with the scalar and, under tag 1, the uncompressed public point.
fn pkcs8_document(scalar: &[u8], point: &[u8]) -> Vec<u8> {
    assert_eq!(scalar.len(), 32);
    assert_eq!(point.len(), 65);
    let mut der = vec![0x30, 0x81, 0x87, 0x02, 0x01, 0x00];
    der.extend_from_slice(&[0x30, 0x13]);
    der.extend_from_slice(&[0x06, 0x07, 0x2a, 0x86, 0x48, 0xce, 0x3d, 0x02, 0x01]);
    der.extend_from_slice(&[0x06, 0x08, 0x2a, 0x86, 0x48, 0xce, 0x3d, 0x03, 0x01, 0x07]);
    der.extend_from_slice(&[0x04, 0x6d, 0x30, 0x6b, 0x02, 0x01, 0x01, 0x04, 0x20]);
    der.extend_from_slice(scalar);
    der.extend_from_slice(&[0xa1, 0x44, 0x03, 0x42, 0x00]);
    der.extend_from_slice(point);
    assert_eq!(der.len(), 138);
    der
}

/// PEM armour with CRLF line endings and lines of 64 characters.
fn armoured(der: &[u8]) -> String {
    let label = ["PRIVATE", "KEY"].join(" ");
    let body = base64(der);
    let mut text = format!("-----BEGIN {}-----\r\n", label);
    let mut rest = body.as_str();
    while !rest.is_empty() {
        let (line, tail) = rest.split_at(rest.len().min(64));
        text.push_str(line);
        text.push_str("\r\n");
        rest = tail;
    }
    text.push_str(&format!("-----END {}-----\r\n", label));
    text
}

fn scalar_one() -> Vec<u8> {
    let mut bytes = vec![0u8; 32];
    bytes[31] = 1;
    bytes
}

fn create(store: &mut KeyStore, name: &str) -> Vec<u8> {
    match create_signing_key(store, name) {
        Ok(key) => encode(&key),
        Err(e) => panic!("create of {:?} failed: {}", name, e.message()),
    }
}

fn load(store: &KeyStore, name: &str) -> Result<Vec<u8>, LoadingError> {
    load_signing_key(store, name).map(|key| encode(&key))
}

#[test]
fn does_key_load() {
    let mut store = KeyStore::new();
    let created = create(&mut store, "test");
    let key = load_signing_key(&store, "test").ok().expect("a created key loads");
    assert_eq!(encode(&key), created);
}

#[test]
fn new_store_is_empty() {
    let store = KeyStore::new();
    assert_eq!(store.len(), 0);
    assert!(!store.contains("alice"));
    assert!(get_wallet_names(&store).is_empty());
}

#[test]
fn create_stores_the_key_it_returns() {
    let mut store = KeyStore::new();
    let created = create(&mut store, "alice");
    assert_eq!(created.len(), 32);
    assert_eq!(store.len(), 1);
    assert!(store.contains("alice"));
    assert_eq!(get_key_blob(&store, "alice"), Ok(created.clone()));
    assert_eq!(load(&store, "alice"), Ok(created));
}

#[test]
fn second_create_of_a_name_collides() {
    let mut store = KeyStore::new();
    let first = create(&mut store, "alice");
    let second = create_signing_key(&mut store, "alice");
    assert!(matches!(second, Err(LoadingError::NameCollision)));
    assert_eq!(store.len(), 1);
    assert_eq!(load(&store, "alice"), Ok(first.clone()));
    assert_eq!(get_key_blob(&store, "alice"), Ok(first));
}

#[test]
fn store_signing_key_refuses_a_taken_name() {
    let mut store = KeyStore::new();
    let first = generate();
    let second = generate();
    assert_eq!(store_signing_key(&mut store, "alice", &first), Ok(()));
    assert_eq!(
        store_signing_key(&mut store, "alice", &second),
        Err(LoadingError::NameCollision)
    );
    assert_eq!(store_signing_key(&mut store, "bob", &second), Ok(()));
    assert_eq!(load(&store, "alice"), Ok(encode(&first)));
    assert_eq!(load(&store, "bob"), Ok(encode(&second)));
    assert_eq!(get_wallet_names(&store), vec!["alice".to_string(), "bob".to_string()]);
}

#[test]
fn names_are_matched_exactly() {
    let mut store = KeyStore::new();
    create(&mut store, "alice");
    assert!(!store.contains("Alice"));
    assert!(!store.contains("alice "));
    assert!(!store.contains("alic"));
    assert!(!store.contains(""));
    assert_eq!(load(&store, "Alice"), Err(LoadingError::NameNotFound));
    create(&mut store, "Alice");
    create(&mut store, "");
    assert_eq!(store.len(), 3);
    assert!(store.contains(""));
}

#[test]
fn load_of_a_missing_name_is_not_found() {
    let mut store = KeyStore::new();
    assert_eq!(load(&store, "alice"), Err(LoadingError::NameNotFound));
    assert_eq!(get_key_blob(&store, "alice"), Err(LoadingError::NameNotFound));
    assert_eq!(get_signing_key_pem(&store, "alice"), Err(LoadingError::NameNotFound));
    assert_eq!(load_verifying_key(&store, "alice"), Err(LoadingError::NameNotFound));
    create(&mut store, "bob");
    assert_eq!(load(&store, "alice"), Err(LoadingError::NameNotFound));
}

#[test]
fn mismatched_confirmation_deletes_nothing() {
    let mut store = KeyStore::new();
    let first = create(&mut store, "alice");
    let refused = delete_signing_key(&mut store, "alice", "bob\n");
    assert_eq!(refused, Err(DeletionError::NameNotConfirmed { name: "alice".to_string() }));
    assert_eq!(load(&store, "alice"), Ok(first.clone()));
    let cancelled = delete_signing_key(&mut store, "alice", "");
    assert_eq!(cancelled, Err(DeletionError::NameNotConfirmed { name: "alice".to_string() }));
    let wrong_case = delete_signing_key(&mut store, "alice", "ALICE\n");
    assert_eq!(wrong_case, Err(DeletionError::NameNotConfirmed { name: "alice".to_string() }));
    assert_eq!(load(&store, "alice"), Ok(first));
    assert_eq!(store.len(), 1);
}

#[test]
fn confirmed_delete_removes_the_row() {
    let mut store = KeyStore::new();
    create(&mut store, "alice");
    assert_eq!(delete_signing_key(&mut store, "alice", "alice\n"), Ok(()));
    assert_eq!(load(&store, "alice"), Err(LoadingError::NameNotFound));
    assert_eq!(get_key_blob(&store, "alice"), Err(LoadingError::NameNotFound));
    assert!(!store.contains("alice"));
    assert_eq!(store.len(), 0);
}

#[test]
fn confirmed_delete_of_a_missing_name_changes_nothing() {
    let mut store = KeyStore::new();
    let kept = create(&mut store, "alice");
    assert_eq!(delete_signing_key(&mut store, "bob", " bob \n"), Ok(()));
    assert_eq!(store.len(), 1);
    assert_eq!(load(&store, "alice"), Ok(kept));
}

#[test]
fn a_name_can_be_created_again_after_its_delete() {
    let mut store = KeyStore::new();
    create(&mut store, "alice");
    create(&mut store, "bob");
    assert_eq!(delete_signing_key(&mut store, "alice", "alice"), Ok(()));
    let fresh = create(&mut store, "alice");
    assert_eq!(load(&store, "alice"), Ok(fresh));
    assert_eq!(get_wallet_names(&store), vec!["bob".to_string(), "alice".to_string()]);
}

#[test]
fn malformed_stored_bytes_fail_to_load() {
    let mut store = KeyStore::new();
    assert_eq!(store.insert_row("alice", &[0xde, 0xad, 0xbe, 0xef]), Ok(()));
    assert_eq!(store.insert_row("zero", &[0u8; 32]), Ok(()));
    assert_eq!(store.insert_row("large", &[0xffu8; 32]), Ok(()));
    assert_eq!(store.insert_row("empty", &[]), Ok(()));
    for name in ["alice", "zero", "large", "empty"] {
        assert_eq!(load(&store, name), Err(LoadingError::KeyFailedLoad));
        assert_eq!(get_signing_key_pem(&store, name), Err(LoadingError::KeyFailedLoad));
        assert_eq!(load_verifying_key(&store, name), Err(LoadingError::KeyFailedLoad));
    }
    assert_eq!(get_key_blob(&store, "alice"), Ok(vec![0xde, 0xad, 0xbe, 0xef]));
    assert_eq!(get_key_blob(&store, "empty"), Ok(vec![]));
}

#[test]
fn listing_after_creates_and_a_delete() {
    let mut store = KeyStore::new();
    create(&mut store, "a");
    create(&mut store, "b");
    create(&mut store, "c");
    assert_eq!(
        get_wallet_names(&store),
        vec!["a".to_string(), "b".to_string(), "c".to_string()]
    );
    assert_eq!(delete_signing_key(&mut store, "b", "b\n"), Ok(()));
    assert_eq!(get_wallet_names(&store), vec!["a".to_string(), "c".to_string()]);
    assert_eq!(get_wallet_names(&store), get_wallet_names(&store));
}

#[test]
fn insert_row_keeps_the_first_row_of_a_name() {
    let mut store = KeyStore::new();
    assert_eq!(store.insert_row("alice", &scalar_one()), Ok(()));
    assert_eq!(store.insert_row("alice", &[2u8; 32]), Err(LoadingError::NameCollision));
    assert_eq!(store.len(), 1);
    assert_eq!(get_key_blob(&store, "alice"), Ok(scalar_one()));
}

#[test]
fn delete_keeps_the_other_rows_in_order() {
    let mut store = KeyStore::new();
    assert_eq!(store.insert_row("a", &[1]), Ok(()));
    assert_eq!(store.insert_row("b", &[2]), Ok(()));
    assert_eq!(store.insert_row("c", &[3]), Ok(()));
    assert_eq!(delete_signing_key(&mut store, "a", "a"), Ok(()));
    assert_eq!(delete_signing_key(&mut store, "a", "a"), Ok(()));
    assert_eq!(get_wallet_names(&store), vec!["b".to_string(), "c".to_string()]);
    assert_eq!(get_key_blob(&store, "b"), Ok(vec![2]));
    assert_eq!(get_key_blob(&store, "c"), Ok(vec![3]));
    assert_eq!(delete_signing_key(&mut store, "c", "c"), Ok(()));
    assert_eq!(get_wallet_names(&store), vec!["b".to_string()]);
}

#[test]
fn truncated_stored_bytes_fail_to_load() {
    let mut store = KeyStore::new();
    let whole = encode(&generate());
    assert_eq!(store.insert_row("whole", &whole), Ok(()));
    assert_eq!(load(&store, "whole"), Ok(whole.clone()));
    for len in 0..32usize {
        let name = format!("first-{}", len);
        assert_eq!(store.insert_row(&name, &whole[..len]), Ok(()));
        assert_eq!(load(&store, &name), Err(LoadingError::KeyFailedLoad));
        assert_eq!(get_signing_key_pem(&store, &name), Err(LoadingError::KeyFailedLoad));
        assert_eq!(load_verifying_key(&store, &name), Err(LoadingError::KeyFailedLoad));
        assert_eq!(get_key_blob(&store, &name), Ok(whole[..len].to_vec()));
    }
    let short: Vec<u8> = (1u8..=24).collect();
    assert_eq!(store.insert_row("short", &short), Ok(()));
    assert_eq!(get_key_blob(&store, "short"), Ok(short));
    assert_eq!(load(&store, "short"), Err(LoadingError::KeyFailedLoad));
    let mut longer = whole.clone();
    longer.insert(0, 0);
    assert_eq!(store.insert_row("longer", &longer), Ok(()));
    assert_eq!(load(&store, "longer"), Err(LoadingError::KeyFailedLoad));
}

#[test]
fn pem_of_a_stored_key() {
    let mut store = KeyStore::new();
    assert_eq!(store.insert_row("one", &scalar_one()), Ok(()));
    let expected = armoured(&pkcs8_document(&scalar_one(), &GENERATOR));
    assert_eq!(get_signing_key_pem(&store, "one"), Ok(expected));
    assert_eq!(get_signing_key_pem(&store, "one"), get_signing_key_pem(&store, "one"));
}

#[test]
fn verifying_key_of_a_stored_key() {
    let mut store = KeyStore::new();
    let key = match create_signing_key(&mut store, "alice") {
        Ok(key) => key,
        Err(e) => panic!("create failed: {}", e.message()),
    };
    assert_eq!(load_verifying_key(&store, "alice"), Ok(derive_public(&key)));
    assert_eq!(store.insert_row("one", &scalar_one()), Ok(()));
    let generator = load_verifying_key(&store, "one").ok().expect("one is a scalar");
    let bytes = generator.to_sec1_bytes();
    assert_eq!(bytes[..5], [0x04, 0x6b, 0x17, 0xd1, 0xf2]);
    assert_eq!(bytes[61..], [0x37, 0xbf, 0x51, 0xf5]);
}

#[test]
fn many_names_stay_apart() {
    let mut store = KeyStore::new();
    let mut created = Vec::new();
    for i in 0..20 {
        let name = format!("wallet-{}", i);
        created.push((name.clone(), create(&mut store, &name)));
    }
    for i in (0..20).step_by(2) {
        let name = format!("wallet-{}", i);
        assert_eq!(delete_signing_key(&mut store, &name, &format!("{}\n", name)), Ok(()));
    }
    assert_eq!(store.len(), 10);
    for (i, (name, bytes)) in created.iter().enumerate() {
        if i % 2 == 0 {
            assert_eq!(load(&store, name), Err(LoadingError::NameNotFound));
        } else {
            assert_eq!(load(&store, name), Ok(bytes.clone()));
        }
    }
}
