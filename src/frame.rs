//! The datagram wire frame: a 12-byte nonce followed by the sealed packet
//! (ciphertext and 16-byte tag). Frames carry no sequence number.

use crate::cipher::{
    aead_open, aead_seal, decrypt, encrypt, random_nonce, CipherError, MAX_PLAINTEXT_LEN,
    NONCE_LEN, TAG_LEN,
};
use vstd::prelude::*;

verus! {

/// Largest packet read from the virtual interface.
pub const MTU: usize = 1500;

/// Why an inbound frame was dropped.
#[derive(Clone, Copy, Debug, PartialEq, Eq, Structural)]
pub enum FrameError {
    /// Shorter than a nonce.
    TooShort,
    /// The sealed part did not authenticate.
    AuthenticationFailed,
}

/// The frame that carries `packet` sealed under `key` with `nonce`.
pub open spec fn frame_of(key: Seq<u8>, nonce: Seq<u8>, packet: Seq<u8>) -> Seq<u8> {
    nonce + aead_seal(key, nonce, packet)
}

/// The packet an inbound `frame` carries, or why it is dropped.
pub open spec fn frame_contents(key: Seq<u8>, frame: Seq<u8>) -> Result<Seq<u8>, FrameError> {
    if frame.len() < NONCE_LEN {
        Err(FrameError::TooShort)
    } else {
        match aead_open(key, frame.subrange(0, NONCE_LEN as int), frame.subrange(NONCE_LEN as int, frame.len() as int)) {
            Some(p) => Ok(p),
            None => Err(FrameError::AuthenticationFailed),
        }
    }
}

/// Builds the frame for `packet` with the given nonce. Decoding it under the
/// same key gives `packet` back.
pub fn encode_frame(key: &[u8; 32], nonce: &[u8; 12], packet: &[u8]) -> (r: Vec<u8>)
    requires
        packet@.len() <= MAX_PLAINTEXT_LEN,
    ensures
        r@ == frame_of(key@, nonce@, packet@),
        r@.len() == NONCE_LEN + packet@.len() + TAG_LEN,
        frame_contents(key@, r@) == Ok::<Seq<u8>, FrameError>(packet@),
{
    let sealed = encrypt(packet, key, nonce);
    let mut frame: Vec<u8> = Vec::new();
    frame.extend_from_slice(nonce.as_slice());
    frame.extend_from_slice(sealed.as_slice());
    assert(frame@ =~= nonce@ + sealed@);
    assert(frame@.subrange(0, NONCE_LEN as int) =~= nonce@);
    assert(frame@.subrange(NONCE_LEN as int, frame@.len() as int) =~= sealed@);
    frame
}

/// Recovers the packet an inbound frame carries. A frame shorter than a
/// nonce gives `TooShort`; one whose sealed part does not authenticate gives
/// `AuthenticationFailed`. Neither yields any bytes.
pub fn decode_frame(key: &[u8; 32], frame: &[u8]) -> (r: Result<Vec<u8>, FrameError>)
    ensures
        match r {
            Ok(p) => frame_contents(key@, frame@) == Ok::<Seq<u8>, FrameError>(p@),
            Err(e) => frame_contents(key@, frame@) == Err::<Seq<u8>, FrameError>(e),
        },
{
    if frame.len() < NONCE_LEN {
        return Err(FrameError::TooShort);
    }
    let mut nonce: [u8; 12] = [0u8; 12];
    let mut i: usize = 0;
    while i < NONCE_LEN
        invariant
            i <= NONCE_LEN,
            frame@.len() >= NONCE_LEN,
            forall|j: int| 0 <= j < i ==> nonce@[j] == frame@[j],
        decreases NONCE_LEN - i,
    {
        nonce[i] = frame[i];
        i += 1;
    }
    assert(nonce@ =~= frame@.subrange(0, NONCE_LEN as int));
    let body = vstd::slice::slice_subrange(frame, NONCE_LEN, frame.len());
    match decrypt(body, key, &nonce) {
        Ok(p) => Ok(p),
        Err(CipherError::AuthenticationFailed) => Err(FrameError::AuthenticationFailed),
    }
}

/// Seals one outbound packet under a fresh random nonce. `None` only when no
/// random nonce could be drawn; otherwise the frame decodes to `packet`.
pub fn seal_packet(key: &[u8; 32], packet: &[u8]) -> (r: Option<Vec<u8>>)
    requires
        packet@.len() <= MAX_PLAINTEXT_LEN,
    ensures
        r matches Some(f) ==> {
            &&& frame_contents(key@, f@) == Ok::<Seq<u8>, FrameError>(packet@)
            &&& f@.len() == NONCE_LEN + packet@.len() + TAG_LEN
            &&& exists|n: Seq<u8>| n.len() == NONCE_LEN && f@ == frame_of(key@, n, packet@)
        },
{
    match random_nonce() {
        Some(nonce) => {
            let f = encode_frame(key, &nonce, packet);
            assert(nonce@.len() == NONCE_LEN);
            Some(f)
        },
        None => None,
    }
}

} // verus!
