use vstd::prelude::*;
use vstd::slice::{slice_subrange, slice_to_vec};
use crate::cipher::{
    bytes_of, decrypt_data, decryption, encrypt_data, gcm_seal, KEY_SIZE, MAX_PLAINTEXT,
    NONCE_SIZE, TAG_SIZE,
};
use crate::error::FileCryptError;

verus! {

/// The nonce at the front of an envelope.
pub open spec fn nonce_part(data: Seq<u8>) -> Seq<u8> {
    data.subrange(0, NONCE_SIZE as int)
}

/// The ciphertext that follows the nonce in an envelope.
pub open spec fn ciphertext_part(data: Seq<u8>) -> Seq<u8> {
    data.subrange(NONCE_SIZE as int, data.len() as int)
}

/// What opening the envelope `data` under `key` yields: input too short to
/// hold a nonce is malformed; otherwise the nonce prefix and the rest are
/// handed to the cipher.
pub open spec fn opened(key: Seq<u8>, data: Seq<u8>) -> Result<Seq<u8>, FileCryptError> {
    if data.len() < NONCE_SIZE {
        Err(FileCryptError::MalformedEnvelope)
    } else {
        decryption(key, nonce_part(data), ciphertext_part(data))
    }
}

/// `env` is an envelope of `plaintext` under `key`: a nonce followed by the
/// AES-256-GCM ciphertext of `plaintext` under `key` and that nonce, so
/// `NONCE_SIZE + plaintext.len() + TAG_SIZE` bytes long.
pub open spec fn seals(key: Seq<u8>, plaintext: Seq<u8>, env: Seq<u8>) -> bool {
    &&& env.len() == NONCE_SIZE + plaintext.len() + TAG_SIZE
    &&& ciphertext_part(env) == gcm_seal(key, nonce_part(env), plaintext)
}

/// Input too short to hold a nonce is reported as malformed, never as an
/// authentication failure, whatever the key.
pub proof fn lemma_short_input_is_malformed(key: Seq<u8>, data: Seq<u8>)
    requires
        data.len() < NONCE_SIZE,
    ensures
        opened(key, data) == Err::<Seq<u8>, FileCryptError>(FileCryptError::MalformedEnvelope),
{
}

/// Encrypts `plaintext` under `key` with a fresh nonce and lays the result out
/// as an envelope: `nonce || ciphertext`. Opening that envelope with the same
/// key gives back `plaintext` exactly.
pub fn seal_envelope(key: &[u8], plaintext: &[u8]) -> (r: Result<Vec<u8>, FileCryptError>)
    ensures
        key@.len() != KEY_SIZE ==> r matches Err(FileCryptError::CipherInit),
        key@.len() == KEY_SIZE && plaintext@.len() > MAX_PLAINTEXT ==> r matches Err(
            FileCryptError::EncryptionFailed,
        ),
        key@.len() == KEY_SIZE && plaintext@.len() <= MAX_PLAINTEXT ==> r is Ok,
        r matches Ok(env) ==> {
            &&& seals(key@, plaintext@, env@)
            &&& opened(key@, env@) == Ok::<Seq<u8>, FileCryptError>(plaintext@)
        },
{
    let (mut ciphertext, nonce) = encrypt_data(key, plaintext)?;
    let ghost sealed = ciphertext@;
    let mut env = slice_to_vec(nonce.as_slice());
    env.append(&mut ciphertext);
    assert(env@ =~= nonce@ + sealed);
    assert(nonce_part(env@) =~= nonce@);
    assert(ciphertext_part(env@) =~= sealed);
    Ok(env)
}

/// Opens the envelope `data` under `key`: splits off the nonce, then decrypts
/// and authenticates the rest.
pub fn open_envelope(key: &[u8], data: &[u8]) -> (r: Result<Vec<u8>, FileCryptError>)
    ensures
        bytes_of(r) == opened(key@, data@),
{
    if data.len() < NONCE_SIZE {
        return Err(FileCryptError::MalformedEnvelope);
    }
    let mut nonce = [0u8; NONCE_SIZE];
    let mut i: usize = 0;
    while i < NONCE_SIZE
        invariant
            i <= NONCE_SIZE,
            NONCE_SIZE <= data@.len(),
            forall|j: int| 0 <= j < i ==> nonce@[j] == data@[j],
        decreases NONCE_SIZE - i,
    {
        nonce[i] = data[i];
        i += 1;
    }
    assert(nonce@ =~= nonce_part(data@));
    let ciphertext = slice_subrange(data, NONCE_SIZE, data.len());
    assert(ciphertext@ =~= ciphertext_part(data@));
    decrypt_data(key, &nonce, ciphertext)
}

} // verus!
