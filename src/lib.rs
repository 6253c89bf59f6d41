//! Authenticated file encryption with ChaCha20-Poly1305.
//!
//! The library validates key material, seals a plaintext under a key and a
//! fresh nonce, lays out the result as `nonce || ciphertext || tag`, and
//! opens such a blob again. Reading and writing files is left to the caller.

pub mod error;
pub mod key;
pub mod aead_ops;
pub mod pipeline;
