use vstd::prelude::*;
use chacha20poly1305::aead::{Aead, NewAead};
use chacha20poly1305::{ChaCha20Poly1305, Nonce};

verus! {

#[verifier::external_type_specification]
#[verifier::external_body]
pub struct ExAeadError(chacha20poly1305::aead::Error);

/// What ChaCha20-Poly1305 makes of `plaintext` under `key` and `nonce`, with
/// no associated data: the ciphertext followed by the 16-byte tag.
pub uninterp spec fn chacha20poly1305_seal(key: Seq<u8>, nonce: Seq<u8>, plaintext: Seq<u8>) -> Seq<u8>;

/// The cipher's limit on a message: fewer than `u32::MAX` blocks of 64
/// bytes, so that the ChaCha20 block counter cannot wrap.
pub open spec fn within_block_limit(len: nat) -> bool {
    len / 64 < 4294967295
}

/// Relies on `Aead::encrypt` of `ChaCha20Poly1305`, as aead 0.4 implements it
/// over chacha20poly1305's `encrypt_in_place_detached`: the result is the
/// sealed message, 16 bytes longer than the plaintext, and the only error
/// comes from a message of `u32::MAX` blocks or more. The buffer is reserved
/// with room for the tag, hence the bound on the length.
#[verifier::external_body]
pub(crate) fn aead_seal(key: &[u8], nonce: &[u8], plaintext: &[u8]) -> (r: Result<
    Vec<u8>,
    chacha20poly1305::aead::Error,
>)
    requires
        key@.len() == 32,
        nonce@.len() == 12,
        plaintext@.len() + 16 <= isize::MAX,
    ensures
        r is Ok <==> within_block_limit(plaintext@.len()),
        r is Ok ==> r->Ok_0@ == chacha20poly1305_seal(key@, nonce@, plaintext@),
        r is Ok ==> r->Ok_0@.len() == plaintext@.len() + 16,
{
    let cipher = ChaCha20Poly1305::new(chacha20poly1305::Key::from_slice(key));
    cipher.encrypt(Nonce::from_slice(nonce), plaintext)
}

/// Relies on `Aead::decrypt` of `ChaCha20Poly1305`: it returns a plaintext
/// only when the tag of the ciphertext verifies, and the plaintext is then
/// the keystream applied to the ciphertext, so sealing it again under the
/// same key and nonce gives back the ciphertext exactly. Sealing is a
/// keystream xor followed by a tag, hence one ciphertext for each plaintext,
/// and a sealed message within the block limit always opens.
#[verifier::external_body]
pub(crate) fn aead_open(key: &[u8], nonce: &[u8], ciphertext: &[u8]) -> (r: Result<
    Vec<u8>,
    chacha20poly1305::aead::Error,
>)
    requires
        key@.len() == 32,
        nonce@.len() == 12,
    ensures
        r is Ok ==> within_block_limit(r->Ok_0@.len()) && chacha20poly1305_seal(
            key@,
            nonce@,
            r->Ok_0@,
        ) == ciphertext@,
        forall|p: Seq<u8>|
            #![trigger chacha20poly1305_seal(key@, nonce@, p)]
            within_block_limit(p.len()) && chacha20poly1305_seal(key@, nonce@, p) == ciphertext@
                ==> r is Ok && r->Ok_0@ == p,
{
    let cipher = ChaCha20Poly1305::new(chacha20poly1305::Key::from_slice(key));
    cipher.decrypt(Nonce::from_slice(nonce), ciphertext)
}

/// Relies on `rand::random`: twelve bytes drawn from the thread-local,
/// cryptographically secure generator. Nothing is known of their values.
#[verifier::external_body]
pub(crate) fn random_nonce_bytes() -> (r: Vec<u8>)
    ensures
        r@.len() == 12,
{
    rand::random::<[u8; 12]>().to_vec()
}

} // verus!
