//! Hashing, authenticated encryption and random bytes, by way of the `sha2`,
//! `aes-gcm` and `rand` crates.

use vstd::prelude::*;

verus! {

/// The SHA-256 digest of a byte string.
pub uninterp spec fn sha256(data: Seq<u8>) -> Seq<u8>;

/// What AES-256-GCM makes of a plaintext under a key and a nonce, without
/// associated data: the encrypted bytes followed by the tag, or nothing if
/// the plaintext is too long.
pub uninterp spec fn aes256_gcm_seal(key: Seq<u8>, nonce: Seq<u8>, plaintext: Seq<u8>) -> Option<
    Seq<u8>,
>;

/// What AES-256-GCM recovers from sealed bytes under a key and a nonce,
/// without associated data, or nothing if the bytes are not authentic.
pub uninterp spec fn aes256_gcm_open(key: Seq<u8>, nonce: Seq<u8>, sealed: Seq<u8>) -> Option<
    Seq<u8>,
>;

/// The longest plaintext, in bytes, that AES-GCM seals.
pub const MAX_PLAINTEXT: u64 = 0x10_0000_0000;

/// Hashes `data` with SHA-256.
///
/// Wraps `sha2::Sha256` through `Digest::digest`, which computes the hash of
/// the data, 32 bytes long.
#[verifier::external_body]
pub(crate) fn sha256_digest(data: &[u8]) -> (digest: [u8; 32])
    ensures
        digest@ == sha256(data@),
{
    <sha2::Sha256 as sha2::Digest>::digest(data).into()
}

/// `len` random bytes.
///
/// Wraps `RngCore::fill_bytes` on `rand::thread_rng()`, which fills the whole
/// buffer. The bytes depend on the generator, so only their number is
/// claimed. The generator aborts the program if the system gives it no seed.
#[verifier::external_body]
pub(crate) fn random_vec(len: usize) -> (bytes: Vec<u8>)
    ensures
        bytes@.len() == len,
{
    let mut bytes = vec![0u8; len];
    rand::RngCore::fill_bytes(&mut rand::thread_rng(), &mut bytes);
    bytes
}

/// Seals `plaintext` with AES-256-GCM.
///
/// Wraps `Aead::encrypt` of `aes_gcm::Aes256Gcm`. It refuses a plaintext of
/// more than 2^36 bytes and nothing else. The crate's documentation shows
/// that `decrypt` with the same key and nonce gives the plaintext back.
#[verifier::external_body]
pub(crate) fn seal(key: &[u8; 32], nonce: &[u8; 12], plaintext: &[u8]) -> (sealed: Option<Vec<u8>>)
    ensures
        sealed is Some <==> plaintext@.len() <= MAX_PLAINTEXT,
        match sealed {
            Some(bytes) => {
                &&& aes256_gcm_seal(key@, nonce@, plaintext@) == Some(bytes@)
                &&& aes256_gcm_open(key@, nonce@, bytes@) == Some(plaintext@)
            },
            None => aes256_gcm_seal(key@, nonce@, plaintext@) is None,
        },
{
    let cipher = <aes_gcm::Aes256Gcm as aes_gcm::KeyInit>::new(key.into());
    match aes_gcm::aead::Aead::encrypt(&cipher, nonce.into(), plaintext) {
        Ok(bytes) => Some(bytes),
        Err(_) => None,
    }
}

/// Opens bytes sealed with AES-256-GCM.
///
/// Wraps `Aead::decrypt` of `aes_gcm::Aes256Gcm`, which fails unless the
/// bytes carry a tag that matches them under the key and the nonce.
#[verifier::external_body]
pub(crate) fn open(key: &[u8; 32], nonce: &[u8; 12], sealed: &[u8]) -> (plaintext: Option<Vec<u8>>)
    ensures
        match plaintext {
            Some(bytes) => aes256_gcm_open(key@, nonce@, sealed@) == Some(bytes@),
            None => aes256_gcm_open(key@, nonce@, sealed@) is None,
        },
{
    let cipher = <aes_gcm::Aes256Gcm as aes_gcm::KeyInit>::new(key.into());
    match aes_gcm::aead::Aead::decrypt(&cipher, nonce.into(), sealed) {
        Ok(bytes) => Some(bytes),
        Err(_) => None,
    }
}

} // verus!
