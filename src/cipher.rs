//! Authenticated encryption of one payload under a 256-bit key and a 96-bit
//! nonce (ChaCha20-Poly1305, no associated data).

use chacha20poly1305::aead::rand_core::RngCore;
use chacha20poly1305::aead::{Aead, KeyInit, OsRng};
use chacha20poly1305::{ChaCha20Poly1305, Key, Nonce};
use vstd::prelude::*;

verus! {

/// Length of a key in bytes.
pub const KEY_LEN: usize = 32;

/// Length of a nonce in bytes.
pub const NONCE_LEN: usize = 12;

/// Length of the authentication tag appended to every ciphertext.
pub const TAG_LEN: usize = 16;

/// The longest plaintext the cipher accepts: its 32-bit block counter covers
/// fewer than `u32::MAX` blocks of 64 bytes.
pub const MAX_PLAINTEXT_LEN: u64 = 274877906879;

/// What ChaCha20-Poly1305 produces for `plaintext` under `key` and `nonce`:
/// the ciphertext followed by its tag.
pub uninterp spec fn aead_seal(key: Seq<u8>, nonce: Seq<u8>, plaintext: Seq<u8>) -> Seq<u8>;

/// What ChaCha20-Poly1305 recovers from `ciphertext` under `key` and `nonce`:
/// the plaintext when the tag authenticates, nothing otherwise.
pub uninterp spec fn aead_open(key: Seq<u8>, nonce: Seq<u8>, ciphertext: Seq<u8>) -> Option<Seq<u8>>;

/// Why a ciphertext was not opened.
#[derive(Clone, Copy, Debug, PartialEq, Eq, Structural)]
pub enum CipherError {
    /// The tag did not match, or the input was too short to hold one.
    AuthenticationFailed,
}

/// The outcome of opening `ciphertext`.
pub open spec fn opened(key: Seq<u8>, nonce: Seq<u8>, ciphertext: Seq<u8>) -> Result<Seq<u8>, CipherError> {
    match aead_open(key, nonce, ciphertext) {
        Some(p) => Ok(p),
        None => Err(CipherError::AuthenticationFailed),
    }
}

/// Relies on `Aead::encrypt` of chacha20poly1305's `ChaCha20Poly1305`: the
/// result is the encrypted message followed by a 16-byte tag, and decrypting it
/// under the same key and nonce gives the message back. It fails only for a
/// message of `64 * u32::MAX` bytes or more, which `requires` leaves out.
#[verifier::external_body]
fn chacha_seal(key: &[u8; 32], nonce: &[u8; 12], plaintext: &[u8]) -> (r: Vec<u8>)
    requires
        plaintext@.len() <= MAX_PLAINTEXT_LEN,
    ensures
        r@ == aead_seal(key@, nonce@, plaintext@),
        r@.len() == plaintext@.len() + TAG_LEN,
        aead_open(key@, nonce@, r@) == Some(plaintext@),
{
    let cipher = ChaCha20Poly1305::new(Key::from_slice(key));
    cipher.encrypt(Nonce::from_slice(nonce), plaintext).unwrap()
}

/// Relies on `Aead::decrypt` of chacha20poly1305's `ChaCha20Poly1305`: the
/// plaintext when the trailing tag authenticates the rest, an error otherwise,
/// and always an error for input shorter than the tag.
#[verifier::external_body]
fn chacha_open(key: &[u8; 32], nonce: &[u8; 12], ciphertext: &[u8]) -> (r: Option<Vec<u8>>)
    ensures
        match r {
            Some(p) => aead_open(key@, nonce@, ciphertext@) == Some(p@),
            None => aead_open(key@, nonce@, ciphertext@) is None,
        },
        ciphertext@.len() < TAG_LEN ==> r is None,
{
    let cipher = ChaCha20Poly1305::new(Key::from_slice(key));
    cipher.decrypt(Nonce::from_slice(nonce), ciphertext).ok()
}

/// Relies on `RngCore::try_fill_bytes` of the `OsRng` that aead re-exports:
/// twelve bytes from the operating system's generator, or nothing when that
/// generator fails. Nothing is known of the bytes.
#[verifier::external_body]
pub(crate) fn random_nonce() -> (r: Option<[u8; 12]>) {
    let mut nonce = [0u8; 12];
    OsRng.try_fill_bytes(&mut nonce).ok().map(|_| nonce)
}

/// Seals `data`: the ciphertext followed by its tag. Opening the result under
/// the same key and nonce gives `data` back.
pub fn encrypt(data: &[u8], key: &[u8; 32], nonce: &[u8; 12]) -> (r: Vec<u8>)
    requires
        data@.len() <= MAX_PLAINTEXT_LEN,
    ensures
        r@ == aead_seal(key@, nonce@, data@),
        r@.len() == data@.len() + TAG_LEN,
        opened(key@, nonce@, r@) == Ok::<Seq<u8>, CipherError>(data@),
{
    chacha_seal(key, nonce, data)
}

/// Opens `data`, failing closed: any tag mismatch or truncated input gives
/// `AuthenticationFailed` and no plaintext.
pub fn decrypt(data: &[u8], key: &[u8; 32], nonce: &[u8; 12]) -> (r: Result<Vec<u8>, CipherError>)
    ensures
        match r {
            Ok(p) => opened(key@, nonce@, data@) == Ok::<Seq<u8>, CipherError>(p@),
            Err(e) => opened(key@, nonce@, data@) == Err::<Seq<u8>, CipherError>(e),
        },
        data@.len() < TAG_LEN ==> r == Err::<Vec<u8>, CipherError>(CipherError::AuthenticationFailed),
{
    match chacha_open(key, nonce, data) {
        Some(p) => Ok(p),
        None => Err(CipherError::AuthenticationFailed),
    }
}

} // verus!
