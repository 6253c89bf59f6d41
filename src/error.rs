use vstd::prelude::*;

verus! {

/// The ways in which encrypting or decrypting a file can fail.
#[derive(Debug, Clone, PartialEq, Eq)]
pub enum CliError {
    /// The named file could not be read.
    FileReadError(String),
    /// The named file could not be created or written.
    FileWriteError(String),
    /// The key material had the wrong length: (actual, expected).
    KeyLenError(usize, usize),
    /// The cipher refused to seal the plaintext.
    EncryptionError,
    /// The blob did not authenticate under the key, or was malformed.
    DecryptionError,
}

} // verus!
