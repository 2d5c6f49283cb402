use vstd::prelude::*;
use vstd::slice::slice_to_vec;
use crate::cipher::KEY_SIZE;
use crate::entropy::fill_random;
use crate::error::{FileCryptError, IoOp};
use crate::request::{io_error, io_failure, writes, Reply, Request};

verus! {

/// A fresh key: `KEY_SIZE` bytes from the operating system's secure random
/// source.
pub fn generate_key() -> (key: [u8; KEY_SIZE])
    ensures
        key@.len() == KEY_SIZE,
{
    let mut key = [0u8; KEY_SIZE];
    fill_random(&mut key);
    key
}

/// The write that persists `key` at `path`: the raw key bytes, replacing any
/// earlier file, with the parent directories created as needed.
pub fn save_key_to_file(key: &[u8], path: &str) -> (r: Request)
    ensures
        writes(r, path@, key@, true),
{
    Request::Write { path: path.to_owned(), data: slice_to_vec(key), create_parent: true }
}

/// What loading a key from `path` yields, given the outcome of reading it:
/// the bytes read if there are exactly `KEY_SIZE` of them.
pub open spec fn loaded_key(path: Seq<char>, read: Reply, r: Result<Vec<u8>, FileCryptError>) -> bool {
    match read {
        Reply::Data(b) => if b@.len() == KEY_SIZE {
            r matches Ok(k) && k@ == b@
        } else {
            r matches Err(FileCryptError::InvalidKeySize { found }) && found == b@.len()
        },
        _ => r matches Err(e) && io_failure(e, IoOp::Read, path),
    }
}

/// Loads a key from `path`, given the outcome of reading that file. The
/// length is checked before the bytes are used as key material.
pub fn load_key_from_file(path: &str, read: Reply) -> (r: Result<Vec<u8>, FileCryptError>)
    ensures
        loaded_key(path@, read, r),
{
    match read {
        Reply::Data(bytes) => {
            if bytes.len() != KEY_SIZE {
                Err(FileCryptError::InvalidKeySize { found: bytes.len() })
            } else {
                Ok(bytes)
            }
        },
        _ => Err(io_error(IoOp::Read, path)),
    }
}

} // verus!
