use vstd::prelude::*;
use aes_gcm::aead::Aead;
use aes_gcm::{Aes256Gcm, Key, KeyInit, Nonce};
use crate::entropy::fill_random;
use crate::error::FileCryptError;

verus! {

/// Length of an AES-256 key, in bytes.
pub const KEY_SIZE: usize = 32;

/// Length of a GCM nonce, in bytes.
pub const NONCE_SIZE: usize = 12;

/// Length of the authentication tag that GCM appends to every ciphertext.
pub const TAG_SIZE: usize = 16;

/// Largest plaintext, in bytes, that AES-GCM encrypts (2^36).
pub const MAX_PLAINTEXT: u64 = 68719476736;

#[verifier::external_type_specification]
#[verifier::external_body]
pub struct ExAeadError(aes_gcm::Error);

/// The AES-256-GCM ciphertext (tag appended) of `plaintext` under `key` and
/// `nonce`, with no associated data.
pub uninterp spec fn gcm_seal(key: Seq<u8>, nonce: Seq<u8>, plaintext: Seq<u8>) -> Seq<u8>;

/// The plaintext that AES-256-GCM recovers from `ciphertext` under `key` and
/// `nonce`, or `None` where the tag does not verify.
pub uninterp spec fn gcm_open(key: Seq<u8>, nonce: Seq<u8>, ciphertext: Seq<u8>) -> Option<Seq<u8>>;

/// Relies on `aes_gcm::aead::Aead::encrypt` for `Aes256Gcm` (built with
/// `KeyInit::new` from the key bytes): it fails only for plaintexts beyond
/// `P_MAX` (2^36 bytes); otherwise it returns the encrypted payload followed by
/// the 16-byte tag, which `Aead::decrypt` under the same key and nonce turns
/// back into the plaintext.
#[verifier::external_body]
fn gcm_encrypt(key: &[u8], nonce: &[u8], plaintext: &[u8]) -> (r: Result<Vec<u8>, aes_gcm::Error>)
    requires
        key@.len() == KEY_SIZE,
        nonce@.len() == NONCE_SIZE,
    ensures
        r is Ok <==> plaintext@.len() <= MAX_PLAINTEXT,
        r matches Ok(c) ==> {
            &&& c@ == gcm_seal(key@, nonce@, plaintext@)
            &&& c@.len() == plaintext@.len() + TAG_SIZE
            &&& gcm_open(key@, nonce@, c@) == Some(plaintext@)
        },
{
    let cipher = Aes256Gcm::new(Key::<Aes256Gcm>::from_slice(key));
    cipher.encrypt(Nonce::from_slice(nonce), plaintext)
}

/// Relies on `aes_gcm::aead::Aead::decrypt` for `Aes256Gcm` (built with
/// `KeyInit::new` from the key bytes): it returns the plaintext where the tag
/// verifies and an error otherwise.
#[verifier::external_body]
fn gcm_decrypt(key: &[u8], nonce: &[u8], ciphertext: &[u8]) -> (r: Result<Vec<u8>, aes_gcm::Error>)
    requires
        key@.len() == KEY_SIZE,
        nonce@.len() == NONCE_SIZE,
    ensures
        match r {
            Ok(p) => gcm_open(key@, nonce@, ciphertext@) == Some(p@),
            Err(_) => gcm_open(key@, nonce@, ciphertext@) is None,
        },
{
    let cipher = Aes256Gcm::new(Key::<Aes256Gcm>::from_slice(key));
    cipher.decrypt(Nonce::from_slice(nonce), ciphertext)
}

/// The byte contents of a result that carries a buffer.
pub open spec fn bytes_of(r: Result<Vec<u8>, FileCryptError>) -> Result<Seq<u8>, FileCryptError> {
    match r {
        Ok(v) => Ok(v@),
        Err(e) => Err(e),
    }
}

/// What decrypting `ciphertext` under `key` and `nonce` yields: the key length
/// is checked first, then the tag; every authentication failure is the same
/// opaque error.
pub open spec fn decryption(key: Seq<u8>, nonce: Seq<u8>, ciphertext: Seq<u8>) -> Result<
    Seq<u8>,
    FileCryptError,
> {
    if key.len() != KEY_SIZE {
        Err(FileCryptError::CipherInit)
    } else {
        match gcm_open(key, nonce, ciphertext) {
            Some(p) => Ok(p),
            None => Err(FileCryptError::DecryptionFailed),
        }
    }
}

/// Encrypts `plaintext` under `key` with a fresh random nonce, returning the
/// ciphertext (tag appended) and the nonce.
pub fn encrypt_data(key: &[u8], plaintext: &[u8]) -> (r: Result<
    (Vec<u8>, [u8; NONCE_SIZE]),
    FileCryptError,
>)
    ensures
        key@.len() != KEY_SIZE ==> r matches Err(FileCryptError::CipherInit),
        key@.len() == KEY_SIZE && plaintext@.len() > MAX_PLAINTEXT ==> r matches Err(
            FileCryptError::EncryptionFailed,
        ),
        key@.len() == KEY_SIZE && plaintext@.len() <= MAX_PLAINTEXT ==> r is Ok,
        r matches Ok((c, n)) ==> {
            &&& c@ == gcm_seal(key@, n@, plaintext@)
            &&& c@.len() == plaintext@.len() + TAG_SIZE
            &&& decryption(key@, n@, c@) == Ok::<Seq<u8>, FileCryptError>(plaintext@)
        },
{
    if key.len() != KEY_SIZE {
        return Err(FileCryptError::CipherInit);
    }
    let mut nonce = [0u8; NONCE_SIZE];
    fill_random(&mut nonce);
    match gcm_encrypt(key, nonce.as_slice(), plaintext) {
        Ok(c) => Ok((c, nonce)),
        Err(_) => Err(FileCryptError::EncryptionFailed),
    }
}

/// Decrypts and authenticates `ciphertext` under `key` and `nonce`.
pub fn decrypt_data(key: &[u8], nonce: &[u8; NONCE_SIZE], ciphertext: &[u8]) -> (r: Result<
    Vec<u8>,
    FileCryptError,
>)
    ensures
        bytes_of(r) == decryption(key@, nonce@, ciphertext@),
{
    if key.len() != KEY_SIZE {
        return Err(FileCryptError::CipherInit);
    }
    match gcm_decrypt(key, nonce.as_slice(), ciphertext) {
        Ok(p) => Ok(p),
        Err(_) => Err(FileCryptError::DecryptionFailed),
    }
}

} // verus!
