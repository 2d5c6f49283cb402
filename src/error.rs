use vstd::prelude::*;

verus! {

/// The kind of file access that failed.
#[derive(Debug, Clone, Copy, PartialEq, Eq, Structural)]
pub enum IoOp {
    Read,
    Write,
}

/// Every way an operation of this library can fail.
#[derive(Debug)]
pub enum FileCryptError {
    /// Reading or writing the named file failed.
    Io { op: IoOp, path: String },
    /// A key file held `found` bytes instead of exactly 32.
    InvalidKeySize { found: usize },
    /// Key material of the wrong length reached the cipher.
    CipherInit,
    /// The cipher refused the payload (it exceeds the AES-GCM message limit).
    EncryptionFailed,
    /// Authentication failed: wrong key, wrong nonce or corrupted data.
    DecryptionFailed,
    /// An encrypted file too short to hold a nonce.
    MalformedEnvelope,
    /// Decryption was asked for without a key file.
    MissingKeyPath,
}

} // verus!
