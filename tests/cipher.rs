use filecrypt::error::CliError;
use filecrypt::key::{get_key, literal_key_material, Key, KEY_LEN};
use filecrypt::pipeline::{
    crypt_file_name, decrypt, encrypt, encrypt_with_nonce, new_rand_nonce, NONCE_LEN, TAG_LEN,
};

fn key_of(byte: u8) -> Key {
    Key::from_bytes(vec![byte; KEY_LEN]).unwrap()
}

#[test]
fn hello_world_round_trip() {
    let key = key_of(0x01);
    let plaintext = b"hello world".to_vec();
    let blob = encrypt(&key, &plaintext).unwrap();
    assert_eq!(blob.len(), plaintext.len() + 28);
    assert_eq!(blob.len(), plaintext.len() + NONCE_LEN + TAG_LEN);
    assert_ne!(&blob[NONCE_LEN..NONCE_LEN + plaintext.len()], &plaintext[..]);
    assert_eq!(decrypt(&key, &blob).unwrap(), b"hello world".to_vec());
}

#[test]
fn empty_plaintext_round_trip() {
    let key = key_of(0x42);
    let blob = encrypt(&key, &[]).unwrap();
    assert_eq!(blob.len(), NONCE_LEN + TAG_LEN);
    assert_eq!(decrypt(&key, &blob).unwrap(), Vec::<u8>::new());
}

#[test]
fn larger_plaintext_round_trip() {
    let key = Key::from_bytes((0..32u8).collect()).unwrap();
    let plaintext: Vec<u8> = (0..1000u32).map(|i| (i * 7 % 251) as u8).collect();
    let blob = encrypt(&key, &plaintext).unwrap();
    assert_eq!(decrypt(&key, &blob).unwrap(), plaintext);
}

#[test]
fn fixed_nonce_is_prefix_and_deterministic() {
    let key = key_of(0x01);
    let nonce: Vec<u8> = (1..=12u8).collect();
    let a = encrypt_with_nonce(&key, nonce.clone(), b"hello world").unwrap();
    let b = encrypt_with_nonce(&key, nonce.clone(), b"hello world").unwrap();
    assert_eq!(a, b);
    assert_eq!(&a[..NONCE_LEN], &nonce[..]);
    assert_eq!(a.len(), 11 + 28);
    assert_eq!(decrypt(&key, &a).unwrap(), b"hello world".to_vec());
}

#[test]
fn fresh_nonces_differ() {
    let key = key_of(0x01);
    let a = encrypt(&key, b"hello world").unwrap();
    let b = encrypt(&key, b"hello world").unwrap();
    assert_ne!(a, b);
    assert_ne!(&a[..NONCE_LEN], &b[..NONCE_LEN]);
    let n1 = new_rand_nonce();
    let n2 = new_rand_nonce();
    assert_eq!(n1.len(), NONCE_LEN);
    assert_ne!(n1, n2);
}

#[test]
fn every_flipped_bit_is_rejected() {
    let key = key_of(0x01);
    let blob = encrypt(&key, b"hello world").unwrap();
    for i in 0..blob.len() {
        for bit in 0..8 {
            let mut tampered = blob.clone();
            tampered[i] ^= 1 << bit;
            assert_eq!(decrypt(&key, &tampered), Err(CliError::DecryptionError));
        }
    }
}

#[test]
fn wrong_key_is_rejected() {
    let blob = encrypt(&key_of(0x01), b"hello world").unwrap();
    assert_eq!(decrypt(&key_of(0x02), &blob), Err(CliError::DecryptionError));
}

#[test]
fn key_of_31_or_33_bytes_is_rejected() {
    assert!(matches!(
        Key::from_bytes(vec![0x01; 31]),
        Err(CliError::KeyLenError(31, 32))
    ));
    assert!(matches!(
        Key::from_bytes(vec![0x01; 33]),
        Err(CliError::KeyLenError(33, 32))
    ));
    let key = Key::from_bytes(vec![0x01; 32]).unwrap();
    assert_eq!(key.as_bytes(), &[0x01u8; 32][..]);
}

#[test]
fn get_key_checks_both_sources() {
    assert!(matches!(
        get_key(Some("a".repeat(31)), None),
        Err(CliError::KeyLenError(31, 32))
    ));
    assert!(matches!(
        get_key(None, Some(vec![7; 33])),
        Err(CliError::KeyLenError(33, 32))
    ));
    assert!(matches!(get_key(None, Some(Vec::new())), Err(CliError::KeyLenError(0, 32))));
    let key = get_key(Some("a".repeat(32)), None).unwrap();
    assert_eq!(key.as_bytes(), &[b'a'; 32][..]);
    let key = get_key(None, Some(vec![9; 32])).unwrap();
    assert_eq!(key.as_bytes(), &[9u8; 32][..]);
}

#[test]
fn literal_key_prefers_literal_over_file() {
    let key = get_key(Some("b".repeat(32)), Some(vec![9; 5])).unwrap();
    assert_eq!(key.as_bytes(), &[b'b'; 32][..]);
}

#[test]
fn literal_key_takes_one_byte_per_character() {
    assert_eq!(literal_key_material("abc"), vec![0x61, 0x62, 0x63]);
    assert_eq!(literal_key_material("\u{e9}"), vec![0xe9]);
    assert_eq!(literal_key_material("\u{20ac}x"), vec![0xac, b'x']);
    assert_eq!(literal_key_material(""), Vec::<u8>::new());
    let s: String = std::iter::repeat('\u{e9}').take(32).collect();
    assert_eq!(s.len(), 64);
    let key = get_key(Some(s), None).unwrap();
    assert_eq!(key.as_bytes(), &[0xe9u8; 32][..]);
}

#[test]
fn truncated_blob_is_rejected() {
    let key = key_of(0x01);
    for len in 0..NONCE_LEN + TAG_LEN {
        let data = vec![0u8; len];
        assert_eq!(decrypt(&key, &data), Err(CliError::DecryptionError));
    }
}

#[test]
fn truncated_real_blob_is_rejected() {
    let key = key_of(0x01);
    let blob = encrypt(&key, b"hello world").unwrap();
    for len in 0..blob.len() {
        assert_eq!(decrypt(&key, &blob[..len]), Err(CliError::DecryptionError));
    }
}

#[test]
fn crypt_file_name_appends_suffix() {
    assert_eq!(crypt_file_name(&"notes.txt".to_string()), "notes.txt.crypt");
    assert_eq!(crypt_file_name(&String::new()), ".crypt");
}
