//! Authenticated file encryption with AES-256-GCM: key handling, the
//! nonce-prefixed envelope format, and the encrypt/decrypt file pipelines
//! expressed as verified step machines that leave the actual I/O to the caller.
use vstd::prelude::*;

pub mod error;
pub mod entropy;
pub mod cipher;
pub mod request;
pub mod key_management;
pub mod envelope;
pub mod cli;
pub mod operations;

verus! {

} // verus!
