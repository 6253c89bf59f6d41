use vstd::prelude::*;
use crate::error::CliError;

verus! {

/// Length of a ChaCha20-Poly1305 key in bytes.
pub const KEY_LEN: usize = 32;

/// The bytes that a literal key stands for: each character cut down to its
/// low byte.
pub open spec fn literal_key_bytes(s: Seq<char>) -> Seq<u8> {
    s.map_values(|c: char| c as u8)
}

/// A 256-bit cipher key: exactly `KEY_LEN` bytes.
pub struct Key {
    bytes: Vec<u8>,
}

impl View for Key {
    type V = Seq<u8>;

    closed spec fn view(&self) -> Seq<u8> {
        self.bytes@
    }
}

impl Key {
    #[verifier::type_invariant]
    spec fn has_key_len(self) -> bool {
        self.bytes@.len() == KEY_LEN
    }

    /// The key's bytes.
    pub fn as_bytes(&self) -> (r: &[u8])
        ensures
            r@ == self@,
            r@.len() == KEY_LEN,
    {
        proof {
            use_type_invariant(self);
        }
        self.bytes.as_slice()
    }

    /// Takes key material as it stands: no padding, truncation or hashing.
    /// Fails unless it holds exactly `KEY_LEN` bytes.
    pub fn from_bytes(bytes: Vec<u8>) -> (r: Result<Key, CliError>)
        ensures
            bytes@.len() == KEY_LEN ==> r is Ok && r->Ok_0@ == bytes@,
            bytes@.len() != KEY_LEN ==> r == Err::<Key, CliError>(
                CliError::KeyLenError(bytes@.len() as usize, KEY_LEN),
            ),
    {
        let len = bytes.len();
        if len == KEY_LEN {
            Ok(Key { bytes })
        } else {
            Err(CliError::KeyLenError(len, KEY_LEN))
        }
    }
}

/// The key material of a literal key: one byte per character, the
/// character's code point cut down to its low byte.
pub fn literal_key_material(s: &str) -> (r: Vec<u8>)
    ensures
        r@ == literal_key_bytes(s@),
{
    let mut out: Vec<u8> = Vec::new();
    for c in it: s.chars()
        invariant
            it.seq() == s@,
            out@ == literal_key_bytes(s@.take(it.index() as int)),
    {
        out.push(c as u8);
        assert(literal_key_bytes(s@.take(it.index() as int + 1)) =~= literal_key_bytes(
            s@.take(it.index() as int),
        ).push(c as u8));
    }
    assert(s@.take(s@.len() as int) =~= s@);
    out
}

/// Resolves the key from a literal (preferred when given) or from the raw
/// bytes of a key file, and checks its length.
pub fn get_key(raw_key: Option<String>, key_file_data: Option<Vec<u8>>) -> (r: Result<
    Key,
    CliError,
>)
    requires
        raw_key is Some || key_file_data is Some,
    ensures
        ({
            let material = match raw_key {
                Some(s) => literal_key_bytes(s@),
                None => key_file_data->Some_0@,
            };
            &&& material.len() == KEY_LEN ==> r is Ok && r->Ok_0@ == material
            &&& material.len() != KEY_LEN ==> r == Err::<Key, CliError>(
                CliError::KeyLenError(material.len() as usize, KEY_LEN),
            )
        }),
{
    let material = match raw_key {
        Some(s) => literal_key_material(s.as_str()),
        None => match key_file_data {
            Some(data) => data,
            None => Vec::new(),
        },
    };
    Key::from_bytes(material)
}

} // verus!
