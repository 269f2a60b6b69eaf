//! Envelope encryption of provider credentials with AES-256-GCM.
//!
//! A credential is sealed under the master key with a fresh random 96-bit nonce and stored with
//! the version of the key that sealed it; it opens only under a cipher of the same key version.
use aes_gcm::aead::rand_core::RngCore;
use aes_gcm::aead::{Aead, KeyInit, OsRng};
use base64::Engine;
use vstd::prelude::*;
use vstd::string::StringSliceAdditionalSpecFns;
use vstd::utf8::{decode_utf8, valid_utf8};

verus! {

/// The length of an AES-GCM nonce, in bytes.
pub const NONCE_LENGTH: usize = 12;

/// The length of an AES-256 key, in bytes.
pub const KEY_LENGTH: usize = 32;

/// The longest plaintext that AES-GCM seals, in bytes (2^36).
pub const MAX_PLAINTEXT_LENGTH: u64 = 0x10_0000_0000;

/// `base64::engine::general_purpose::STANDARD.decode`: the bytes that a standard base64 text
/// stands for, or `None` where it is not valid base64.
pub uninterp spec fn base64_standard_decoded(text: Seq<char>) -> Option<Seq<u8>>;

/// `Aes256Gcm::encrypt`: the ciphertext (with its tag) of a plaintext under a key and a nonce,
/// or `None` where the cipher refuses the input.
pub uninterp spec fn aes_gcm_sealed(key: Seq<u8>, nonce: Seq<u8>, plaintext: Seq<u8>) -> Option<
    Seq<u8>,
>;

/// `Aes256Gcm::decrypt`: the plaintext of a ciphertext under a key and a nonce, or `None` where
/// authentication fails.
pub uninterp spec fn aes_gcm_opened(key: Seq<u8>, nonce: Seq<u8>, ciphertext: Seq<u8>) -> Option<
    Seq<u8>,
>;

/// Decodes standard (padded) base64.
#[verifier::external_body]
fn decode_base64(text: &str) -> (r: Option<Vec<u8>>)
    ensures
        match base64_standard_decoded(text@) {
            Some(bytes) => r matches Some(v) && v@ == bytes,
            None => r is None,
        },
{
    base64::engine::general_purpose::STANDARD.decode(text).ok()
}

/// Twelve bytes from the operating system's random source (`OsRng::fill_bytes`). Nothing is
/// said of their value.
#[verifier::external_body]
fn random_nonce() -> (r: Vec<u8>)
    ensures
        r@.len() == NONCE_LENGTH,
{
    let mut nonce = [0_u8; NONCE_LENGTH];
    OsRng.fill_bytes(&mut nonce);
    nonce.to_vec()
}

/// Seals `plaintext` under `key` with `nonce` (`Aes256Gcm::encrypt`). A 32-byte key always
/// makes a cipher, and the cipher refuses only a plaintext longer than 2^36 bytes. What it seals
/// opens again under the same key and nonce to the same plaintext, as authenticated encryption
/// does.
#[verifier::external_body]
fn aes_gcm_encrypt(key: &[u8], nonce: &[u8], plaintext: &[u8]) -> (r: Option<Vec<u8>>)
    requires
        key@.len() == KEY_LENGTH,
        nonce@.len() == NONCE_LENGTH,
    ensures
        match aes_gcm_sealed(key@, nonce@, plaintext@) {
            Some(c) => r matches Some(v) && v@ == c,
            None => r is None,
        },
        r is Some <==> plaintext@.len() <= MAX_PLAINTEXT_LENGTH,
        r matches Some(v) ==> aes_gcm_opened(key@, nonce@, v@) == Some(plaintext@),
{
    let cipher = aes_gcm::Aes256Gcm::new_from_slice(key).ok()?;
    cipher.encrypt(aes_gcm::Nonce::from_slice(nonce), plaintext).ok()
}

/// Opens `ciphertext` under `key` with `nonce` (`Aes256Gcm::decrypt`).
#[verifier::external_body]
fn aes_gcm_decrypt(key: &[u8], nonce: &[u8], ciphertext: &[u8]) -> (r: Option<Vec<u8>>)
    requires
        key@.len() == KEY_LENGTH,
        nonce@.len() == NONCE_LENGTH,
    ensures
        match aes_gcm_opened(key@, nonce@, ciphertext@) {
            Some(p) => r matches Some(v) && v@ == p,
            None => r is None,
        },
{
    let cipher = aes_gcm::Aes256Gcm::new_from_slice(key).ok()?;
    cipher.decrypt(aes_gcm::Nonce::from_slice(nonce), ciphertext).ok()
}

/// `String::from_utf8`: the text that the bytes encode, if they are valid UTF-8.
#[verifier::external_body]
fn utf8_text(bytes: Vec<u8>) -> (r: Option<String>)
    ensures
        r is Some <==> valid_utf8(bytes@),
        r matches Some(s) ==> s@ == decode_utf8(bytes@),
{
    String::from_utf8(bytes).ok()
}

/// A sealed credential: ciphertext, nonce and the version of the key that sealed it.
#[derive(Clone, Debug)]
pub struct EncryptedCredential {
    pub ciphertext: Vec<u8>,
    pub nonce: Vec<u8>,
    pub key_version: i32,
}

#[derive(Clone, Copy, Debug, PartialEq, Eq, Structural)]
pub enum CryptoError {
    InvalidKey,
    Encryption,
    Decryption,
    InvalidPlaintext,
}

impl CryptoError {
    /// The message of the error.
    pub fn message(&self) -> (r: &'static str)
        ensures
            r@ == match *self {
                CryptoError::InvalidKey => "credential master key must be base64 encoded 32 bytes"@,
                CryptoError::Encryption => "credential encryption failed"@,
                CryptoError::Decryption => "credential decryption failed"@,
                CryptoError::InvalidPlaintext => "decrypted credential is not UTF-8"@,
            },
    {
        match self {
            CryptoError::InvalidKey => "credential master key must be base64 encoded 32 bytes",
            CryptoError::Encryption => "credential encryption failed",
            CryptoError::Decryption => "credential decryption failed",
            CryptoError::InvalidPlaintext => "decrypted credential is not UTF-8",
        }
    }
}

/// The master key of credential encryption, with its version.
pub struct EnvelopeCipher {
    key: Vec<u8>,
    key_version: i32,
}

impl Clone for EnvelopeCipher {
    fn clone(&self) -> (r: Self)
        ensures
            r.spec_key() == self.spec_key(),
            r.spec_key_version() == self.spec_key_version(),
    {
        proof {
            use_type_invariant(self);
        }
        let key = self.key.clone();
        proof {
            assert(key@ =~= self.key@);
        }
        EnvelopeCipher { key, key_version: self.key_version }
    }
}

/// What decrypting a sealed credential under a key of a version gives.
pub open spec fn decryption(
    key: Seq<u8>,
    key_version: i32,
    ciphertext: Seq<u8>,
    nonce: Seq<u8>,
    sealed_version: i32,
) -> Result<Seq<char>, CryptoError> {
    if sealed_version != key_version || nonce.len() != NONCE_LENGTH {
        Err(CryptoError::Decryption)
    } else {
        match aes_gcm_opened(key, nonce, ciphertext) {
            None => Err(CryptoError::Decryption),
            Some(bytes) => if valid_utf8(bytes) {
                Ok(decode_utf8(bytes))
            } else {
                Err(CryptoError::InvalidPlaintext)
            },
        }
    }
}

impl EnvelopeCipher {
    /// The key is an AES-256 key.
    #[verifier::type_invariant]
    spec fn key_is_aes256(self) -> bool {
        self.key@.len() == KEY_LENGTH
    }

    pub closed spec fn spec_key(self) -> Seq<u8> {
        self.key@
    }

    pub closed spec fn spec_key_version(self) -> i32 {
        self.key_version
    }

    /// Builds a cipher from a base64 encoded AES-256 key: the text must decode to exactly 32
    /// bytes.
    pub fn from_base64(value: &str, key_version: i32) -> (r: Result<EnvelopeCipher, CryptoError>)
        ensures
            match base64_standard_decoded(value@) {
                Some(bytes) => if bytes.len() == KEY_LENGTH {
                    r matches Ok(c) && c.spec_key() == bytes && c.spec_key_version() == key_version
                } else {
                    r == Err::<EnvelopeCipher, CryptoError>(CryptoError::InvalidKey)
                },
                None => r == Err::<EnvelopeCipher, CryptoError>(CryptoError::InvalidKey),
            },
    {
        let decoded = match decode_base64(value) {
            Some(bytes) => bytes,
            None => {
                return Err(CryptoError::InvalidKey);
            },
        };
        if decoded.len() != KEY_LENGTH {
            return Err(CryptoError::InvalidKey);
        }
        assert(decoded@.len() == KEY_LENGTH);
        Ok(EnvelopeCipher { key: decoded, key_version })
    }

    /// Seals a credential under a fresh random nonce and the cipher's key version. It succeeds
    /// on every text of at most 2^36 bytes, and whatever it seals, this cipher decrypts back to
    /// the same text.
    pub fn encrypt(&self, plaintext: &str) -> (r: Result<EncryptedCredential, CryptoError>)
        ensures
            r is Ok <==> plaintext.spec_bytes().len() <= MAX_PLAINTEXT_LENGTH,
            r matches Ok(e) ==> {
                &&& e.nonce@.len() == NONCE_LENGTH
                &&& e.key_version == self.spec_key_version()
                &&& aes_gcm_sealed(self.spec_key(), e.nonce@, plaintext.spec_bytes()) == Some(
                    e.ciphertext@,
                )
                &&& decryption(
                    self.spec_key(),
                    self.spec_key_version(),
                    e.ciphertext@,
                    e.nonce@,
                    e.key_version,
                ) == Ok::<Seq<char>, CryptoError>(plaintext@)
            },
            r matches Err(e) ==> e == CryptoError::Encryption,
    {
        proof {
            use_type_invariant(self);
        }
        let nonce = random_nonce();
        let bytes = plaintext.as_bytes();
        match aes_gcm_encrypt(self.key.as_slice(), nonce.as_slice(), bytes) {
            Some(ciphertext) => {
                proof {
                    vstd::utf8::encode_utf8_valid_utf8(plaintext@);
                    vstd::utf8::encode_utf8_decode_utf8(plaintext@);
                }
                Ok(EncryptedCredential { ciphertext, nonce, key_version: self.key_version })
            },
            None => Err(CryptoError::Encryption),
        }
    }

    /// Opens a credential sealed under this cipher's key version.
    pub fn decrypt(&self, encrypted: &EncryptedCredential) -> (r: Result<String, CryptoError>)
        ensures
            match decryption(
                self.spec_key(),
                self.spec_key_version(),
                encrypted.ciphertext@,
                encrypted.nonce@,
                encrypted.key_version,
            ) {
                Ok(text) => r matches Ok(s) && s@ == text,
                Err(e) => r == Err::<String, CryptoError>(e),
            },
    {
        proof {
            use_type_invariant(self);
        }
        if encrypted.key_version != self.key_version || encrypted.nonce.len() != NONCE_LENGTH {
            return Err(CryptoError::Decryption);
        }
        let plaintext = match aes_gcm_decrypt(
            self.key.as_slice(),
            encrypted.nonce.as_slice(),
            encrypted.ciphertext.as_slice(),
        ) {
            Some(bytes) => bytes,
            None => {
                return Err(CryptoError::Decryption);
            },
        };
        match utf8_text(plaintext) {
            Some(text) => Ok(text),
            None => Err(CryptoError::InvalidPlaintext),
        }
    }
}

} // verus!
