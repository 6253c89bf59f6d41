use vstd::prelude::*;
use vstd::string::StringExecFns;
use crate::aead_ops::{
    aead_open,
    aead_seal,
    chacha20poly1305_seal,
    random_nonce_bytes,
    within_block_limit,
};
use crate::error::CliError;
use crate::key::Key;

verus! {

/// Length of a nonce in bytes.
pub const NONCE_LEN: usize = 12;

/// Length of the authentication tag in bytes.
pub const TAG_LEN: usize = 16;

/// The blob stored for `plaintext`: the nonce, then the sealed message.
pub open spec fn blob_of(key: Seq<u8>, nonce: Seq<u8>, plaintext: Seq<u8>) -> Seq<u8> {
    nonce + chacha20poly1305_seal(key, nonce, plaintext)
}

/// `blob` is a nonce followed by the sealing of `plaintext` under `key` and
/// that nonce.
pub open spec fn opens_to(key: Seq<u8>, blob: Seq<u8>, plaintext: Seq<u8>) -> bool {
    &&& blob.len() >= NONCE_LEN
    &&& within_block_limit(plaintext.len())
    &&& chacha20poly1305_seal(key, blob.take(NONCE_LEN as int), plaintext) == blob.skip(
        NONCE_LEN as int,
    )
}

/// A fresh nonce from a cryptographically secure source.
pub fn new_rand_nonce() -> (r: Vec<u8>)
    ensures
        r@.len() == NONCE_LEN,
{
    random_nonce_bytes()
}

/// Seals `plaintext` under `key` and the given nonce and lays out the blob as
/// `nonce || ciphertext || tag`.
pub fn encrypt_with_nonce(key: &Key, nonce: Vec<u8>, plaintext: &[u8]) -> (r: Result<
    Vec<u8>,
    CliError,
>)
    requires
        nonce@.len() == NONCE_LEN,
        plaintext@.len() + TAG_LEN <= isize::MAX,
    ensures
        r is Ok <==> within_block_limit(plaintext@.len()),
        r is Ok ==> r->Ok_0@ == blob_of(key@, nonce@, plaintext@),
        r is Ok ==> r->Ok_0@.len() == plaintext@.len() + NONCE_LEN + TAG_LEN,
        r is Err ==> r->Err_0 == CliError::EncryptionError,
{
    let key_bytes = key.as_bytes();
    match aead_seal(key_bytes, nonce.as_slice(), plaintext) {
        Ok(sealed) => {
            let mut sealed = sealed;
            let mut blob = nonce;
            blob.append(&mut sealed);
            Ok(blob)
        },
        Err(_) => Err(CliError::EncryptionError),
    }
}

/// Seals `plaintext` under `key` and a fresh random nonce. The blob starts
/// with that nonce.
pub fn encrypt(key: &Key, plaintext: &[u8]) -> (r: Result<Vec<u8>, CliError>)
    requires
        plaintext@.len() + TAG_LEN <= isize::MAX,
    ensures
        r is Ok <==> within_block_limit(plaintext@.len()),
        r is Ok ==> r->Ok_0@ == blob_of(key@, r->Ok_0@.take(NONCE_LEN as int), plaintext@),
        r is Ok ==> r->Ok_0@.len() == plaintext@.len() + NONCE_LEN + TAG_LEN,
        r is Ok ==> opens_to(key@, r->Ok_0@, plaintext@),
        r is Err ==> r->Err_0 == CliError::EncryptionError,
{
    let nonce = new_rand_nonce();
    let r = encrypt_with_nonce(key, nonce, plaintext);
    proof {
        if r is Ok {
            let blob = r->Ok_0@;
            assert(blob.take(NONCE_LEN as int) =~= nonce@);
            lemma_round_trip(key@, nonce@, plaintext@);
        }
    }
    r
}

/// Splits `data` into nonce and sealed message and opens it under `key`.
/// Fails, without any plaintext, when `data` is shorter than a nonce or does
/// not authenticate.
pub fn decrypt(key: &Key, data: &[u8]) -> (r: Result<Vec<u8>, CliError>)
    ensures
        r is Ok <==> exists|p: Seq<u8>| opens_to(key@, data@, p),
        r is Ok ==> opens_to(key@, data@, r->Ok_0@),
        forall|p: Seq<u8>| #[trigger] opens_to(key@, data@, p) ==> r is Ok && r->Ok_0@ == p,
        data@.len() < NONCE_LEN ==> r is Err,
        r is Err ==> r->Err_0 == CliError::DecryptionError,
{
    if data.len() < NONCE_LEN {
        return Err(CliError::DecryptionError);
    }
    let (nonce, payload) = data.split_at(NONCE_LEN);
    assert(nonce@ == data@.take(NONCE_LEN as int));
    assert(payload@ == data@.skip(NONCE_LEN as int));
    match aead_open(key.as_bytes(), nonce, payload) {
        Ok(plaintext) => {
            assert(opens_to(key@, data@, plaintext@));
            Ok(plaintext)
        },
        Err(_) => {
            assert forall|p: Seq<u8>| !opens_to(key@, data@, p) by {
                if opens_to(key@, data@, p) {
                    assert(chacha20poly1305_seal(key@, nonce@, p) == payload@);
                }
            }
            Err(CliError::DecryptionError)
        },
    }
}

/// The name of the encrypted file that belongs to `file_name`.
pub fn crypt_file_name(file_name: &String) -> (r: String)
    ensures
        r@ == file_name@ + ".crypt"@,
{
    let name = file_name.clone();
    name.concat(".crypt")
}

/// Decrypting what was encrypted under the same key and any nonce gives back
/// the plaintext: the blob opens to it.
pub proof fn lemma_round_trip(key: Seq<u8>, nonce: Seq<u8>, plaintext: Seq<u8>)
    requires
        nonce.len() == NONCE_LEN,
        within_block_limit(plaintext.len()),
    ensures
        opens_to(key, blob_of(key, nonce, plaintext), plaintext),
{
    let blob = blob_of(key, nonce, plaintext);
    assert(blob.take(NONCE_LEN as int) =~= nonce);
    assert(blob.skip(NONCE_LEN as int) =~= chacha20poly1305_seal(key, nonce, plaintext));
}

} // verus!
