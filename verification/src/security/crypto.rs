//! Encryption of data at rest.

use vstd::prelude::*;
use vstd::slice::slice_subrange;
use crate::adapters::ids::hex_digits;
use crate::engine::text::push_char;
use vstd::string::StringSliceAdditionalSpecFns;
use crate::adapters::crypto::{
    aes256_gcm_open, aes256_gcm_seal, open, random_vec, seal, sha256, sha256_digest,
    MAX_PLAINTEXT,
};

verus! {

/// Why an encryption or a decryption failed.
#[derive(Debug, Clone, Copy, PartialEq, Eq, Structural)]
pub enum CryptoError {
    /// The ciphertext is shorter than a nonce.
    TooShort,
    /// The cipher refused the plaintext.
    EncryptionFailed,
    /// The ciphertext is not authentic under this key.
    DecryptionFailed,
}

impl CryptoError {
    /// A sentence that says what failed.
    pub fn message(&self) -> (text: &'static str)
        ensures
            text@ == match *self {
                CryptoError::TooShort => "Ciphertext too short"@,
                CryptoError::EncryptionFailed => "Encryption failed"@,
                CryptoError::DecryptionFailed => "Decryption failed"@,
            },
    {
        match self {
            CryptoError::TooShort => "Ciphertext too short",
            CryptoError::EncryptionFailed => "Encryption failed",
            CryptoError::DecryptionFailed => "Decryption failed",
        }
    }
}

/// Bytes in lower-case hexadecimal, two digits each.
pub open spec fn hex_of(bytes: Seq<u8>) -> Seq<char>
    decreases bytes.len(),
{
    if bytes.len() == 0 {
        Seq::empty()
    } else {
        hex_of(bytes.drop_last()).push(hex_digits()[bytes.last() as int / 16]).push(
            hex_digits()[bytes.last() as int % 16],
        )
    }
}

/// The character of a hexadecimal digit.
fn hex_char(d: u8) -> (c: char)
    requires
        d < 16,
    ensures
        c == hex_digits()[d as int],
{
    match d {
        0 => '0',
        1 => '1',
        2 => '2',
        3 => '3',
        4 => '4',
        5 => '5',
        6 => '6',
        7 => '7',
        8 => '8',
        9 => '9',
        10 => 'a',
        11 => 'b',
        12 => 'c',
        13 => 'd',
        14 => 'e',
        _ => 'f',
    }
}

/// Writes bytes in lower-case hexadecimal.
pub fn to_hex(bytes: &[u8]) -> (text: String)
    ensures
        text@ == hex_of(bytes@),
{
    let mut text = String::new();
    let mut i: usize = 0;
    while i < bytes.len()
        invariant
            i <= bytes.len(),
            text@ == hex_of(bytes@.take(i as int)),
        decreases bytes.len() - i,
    {
        assert(bytes@.take(i + 1).drop_last() =~= bytes@.take(i as int));
        push_char(&mut text, hex_char(bytes[i] / 16));
        push_char(&mut text, hex_char(bytes[i] % 16));
        i += 1;
    }
    assert(bytes@.take(bytes.len() as int) =~= bytes@);
    text
}

/// The length of a nonce in bytes.
pub const NONCE_LEN: usize = 12;

/// Encrypts and decrypts with AES-256-GCM under one key.
pub struct CryptoService {
    key: [u8; 32],
}

/// The first 32 bytes of `bytes` as an array.
fn key_of(bytes: &[u8]) -> (key: [u8; 32])
    requires
        bytes@.len() >= 32,
    ensures
        key@ == bytes@.take(32),
{
    let key = [
        bytes[0], bytes[1], bytes[2], bytes[3], bytes[4], bytes[5], bytes[6], bytes[7],
        bytes[8], bytes[9], bytes[10], bytes[11], bytes[12], bytes[13], bytes[14], bytes[15],
        bytes[16], bytes[17], bytes[18], bytes[19], bytes[20], bytes[21], bytes[22], bytes[23],
        bytes[24], bytes[25], bytes[26], bytes[27], bytes[28], bytes[29], bytes[30], bytes[31],
    ];
    key
}

/// The first 12 bytes of `bytes` as an array.
fn nonce_of(bytes: &[u8]) -> (nonce: [u8; 12])
    requires
        bytes@.len() >= 12,
    ensures
        nonce@ == bytes@.take(12),
{
    let nonce = [
        bytes[0], bytes[1], bytes[2], bytes[3], bytes[4], bytes[5], bytes[6], bytes[7],
        bytes[8], bytes[9], bytes[10], bytes[11],
    ];
    nonce
}

impl CryptoService {
    /// The key in use.
    pub closed spec fn key(self) -> Seq<u8> {
        self.key@
    }

    /// What `encrypt` gives for `plaintext` when it draws `nonce`: the nonce
    /// followed by the sealed plaintext.
    pub open spec fn sealed_with(self, nonce: Seq<u8>, plaintext: Seq<u8>) -> Option<Seq<u8>> {
        match aes256_gcm_seal(self.key(), nonce, plaintext) {
            Some(sealed) => Some(nonce + sealed),
            None => None,
        }
    }

    /// What `decrypt` recovers from `ciphertext`, if it is long enough.
    pub open spec fn opened(self, ciphertext: Seq<u8>) -> Option<Seq<u8>> {
        aes256_gcm_open(
            self.key(),
            ciphertext.take(NONCE_LEN as int),
            ciphertext.skip(NONCE_LEN as int),
        )
    }

    /// A service that uses `key`.
    pub fn new(key: [u8; 32]) -> (service: CryptoService)
        ensures
            service.key() == key@,
    {
        CryptoService { key }
    }

    /// A service whose key is the SHA-256 digest of the password's bytes
    /// followed by the salt.
    pub fn from_password(password: &str, salt: &[u8]) -> (service: CryptoService)
        ensures
            service.key() == sha256(password.spec_bytes() + salt@),
    {
        let mut material: Vec<u8> = Vec::new();
        let secret = password.as_bytes();
        let mut i: usize = 0;
        while i < secret.len()
            invariant
                i <= secret.len(),
                material@ == secret@.take(i as int),
            decreases secret.len() - i,
        {
            material.push(secret[i]);
            i += 1;
        }
        let mut j: usize = 0;
        while j < salt.len()
            invariant
                j <= salt.len(),
                material@ == secret@ + salt@.take(j as int),
            decreases salt.len() - j,
        {
            material.push(salt[j]);
            j += 1;
        }
        assert(salt@.take(salt.len() as int) =~= salt@);
        CryptoService { key: sha256_digest(material.as_slice()) }
    }

    /// A fresh random key.
    pub fn generate_key() -> [u8; 32] {
        let bytes = random_vec(32);
        key_of(bytes.as_slice())
    }

    /// Encrypts `plaintext` under the given nonce. The result is the nonce
    /// followed by the sealed plaintext.
    pub fn encrypt_with_nonce(&self, nonce: &[u8; 12], plaintext: &[u8]) -> (outcome: Result<
        Vec<u8>,
        CryptoError,
    >)
        ensures
            outcome is Ok <==> plaintext@.len() <= MAX_PLAINTEXT,
            match outcome {
                Ok(ciphertext) => {
                    &&& self.sealed_with(nonce@, plaintext@) == Some(ciphertext@)
                    &&& self.opened(ciphertext@) == Some(plaintext@)
                },
                Err(e) => e == CryptoError::EncryptionFailed && self.sealed_with(
                    nonce@,
                    plaintext@,
                ) is None,
            },
    {
        match seal(&self.key, nonce, plaintext) {
            Some(sealed) => {
                let mut ciphertext: Vec<u8> = Vec::new();
                let mut i: usize = 0;
                while i < 12
                    invariant
                        i <= 12,
                        ciphertext@ == nonce@.take(i as int),
                    decreases 12 - i,
                {
                    ciphertext.push(nonce[i]);
                    i += 1;
                }
                let mut j: usize = 0;
                while j < sealed.len()
                    invariant
                        j <= sealed.len(),
                        ciphertext@ == nonce@ + sealed@.take(j as int),
                    decreases sealed.len() - j,
                {
                    ciphertext.push(sealed[j]);
                    j += 1;
                }
                assert(ciphertext@.take(12) =~= nonce@);
                assert(ciphertext@.skip(12) =~= sealed@);
                Ok(ciphertext)
            },
            None => Err(CryptoError::EncryptionFailed),
        }
    }

    /// Encrypts `plaintext` under a fresh random nonce. The result is the
    /// nonce followed by the sealed plaintext, and decrypts to the plaintext.
    pub fn encrypt(&self, plaintext: &[u8]) -> (outcome: Result<Vec<u8>, CryptoError>)
        ensures
            outcome is Ok <==> plaintext@.len() <= MAX_PLAINTEXT,
            match outcome {
                Ok(ciphertext) => {
                    &&& ciphertext@.len() >= NONCE_LEN
                    &&& self.sealed_with(ciphertext@.take(NONCE_LEN as int), plaintext@) == Some(
                        ciphertext@,
                    )
                    &&& self.opened(ciphertext@) == Some(plaintext@)
                },
                Err(e) => e == CryptoError::EncryptionFailed,
            },
    {
        let drawn = random_vec(12);
        let nonce = nonce_of(drawn.as_slice());
        let outcome = self.encrypt_with_nonce(&nonce, plaintext);
        proof {
            if outcome is Ok {
                let ciphertext = outcome->Ok_0;
                assert(ciphertext@.take(12) =~= nonce@);
            }
        }
        outcome
    }

    /// Decrypts what `encrypt` produced: a nonce followed by sealed bytes.
    pub fn decrypt(&self, ciphertext: &[u8]) -> (outcome: Result<Vec<u8>, CryptoError>)
        ensures
            ciphertext@.len() < NONCE_LEN ==> outcome == Err::<Vec<u8>, CryptoError>(
                CryptoError::TooShort,
            ),
            ciphertext@.len() >= NONCE_LEN ==> match outcome {
                Ok(plaintext) => self.opened(ciphertext@) == Some(plaintext@),
                Err(e) => e == CryptoError::DecryptionFailed && self.opened(ciphertext@) is None,
            },
    {
        if ciphertext.len() < 12 {
            return Err(CryptoError::TooShort);
        }
        let nonce = nonce_of(ciphertext);
        let sealed = slice_subrange(ciphertext, 12, ciphertext.len());
        match open(&self.key, &nonce, sealed) {
            Some(plaintext) => Ok(plaintext),
            None => Err(CryptoError::DecryptionFailed),
        }
    }

    /// The SHA-256 digest of `data`.
    pub fn hash(data: &[u8]) -> (digest: [u8; 32])
        ensures
            digest@ == sha256(data@),
    {
        sha256_digest(data)
    }

    /// `len` random bytes.
    pub fn random_bytes(len: usize) -> (bytes: Vec<u8>)
        ensures
            bytes@.len() == len,
    {
        random_vec(len)
    }
}

} // verus!
