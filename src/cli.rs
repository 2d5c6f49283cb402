use vstd::prelude::*;

verus! {

/// A parsed command line: one subcommand.
#[derive(Debug)]
pub struct Cli {
    pub command: Commands,
}

/// The two subcommands.
#[derive(Debug)]
pub enum Commands {
    /// Encrypt a file.
    Encrypt(EncryptArgs),
    /// Decrypt a file.
    Decrypt(DecryptArgs),
}

/// Arguments of the encrypt subcommand.
#[derive(Debug)]
pub struct EncryptArgs {
    /// The file to encrypt.
    pub input: String,
    /// Where to write the envelope; `<input>.enc` when absent.
    pub output: Option<String>,
    /// The key file; a new key is generated and saved when absent.
    pub key: Option<String>,
}

/// Arguments of the decrypt subcommand.
#[derive(Debug)]
pub struct DecryptArgs {
    /// The envelope to decrypt.
    pub input: String,
    /// Where to write the plaintext; derived from the input's name when absent.
    pub output: Option<String>,
    /// The key file; decryption refuses to run without one.
    pub key: Option<String>,
}

/// The view of an optional string.
pub open spec fn opt_view(o: Option<String>) -> Option<Seq<char>> {
    match o {
        Some(s) => Some(s@),
        None => None,
    }
}

/// A copy of an optional string.
pub fn copy_opt(o: &Option<String>) -> (r: Option<String>)
    ensures
        opt_view(r) == opt_view(*o),
{
    match o {
        Some(s) => Some(s.clone()),
        None => None,
    }
}

} // verus!
