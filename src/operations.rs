use vstd::prelude::*;
use std::path::Path;
use vstd::slice::slice_to_vec;
use crate::cipher::{KEY_SIZE, MAX_PLAINTEXT};
use crate::cli::{copy_opt, opt_view, DecryptArgs, EncryptArgs};
use crate::envelope::{open_envelope, opened, seal_envelope, seals};
use crate::error::{FileCryptError, IoOp};
use crate::key_management::{generate_key, load_key_from_file, save_key_to_file};
use crate::request::{
    asks_read, asks_write, completes, fails_io, fails_with, io_error, Reply, Request, Step,
};

verus! {

/// Where a key is saved when encryption has to generate one.
pub const DEFAULT_KEY_PATH: &'static str = "keys/default.key";

/// Appended to the input path to name an envelope.
pub const ENCRYPTED_SUFFIX: &'static str = ".enc";

/// Appended to the input's stem to name a decrypted file.
pub const DECRYPTED_SUFFIX: &'static str = "_decrypted";

/// The decrypted file's name where the input has no stem.
pub const FALLBACK_OUTPUT: &'static str = "decrypted_output";

/// The stem (final component without its extension) of `path`, as
/// `std::path::Path::file_stem` computes it.
pub uninterp spec fn file_stem_of(path: Seq<char>) -> Option<Seq<char>>;

/// Relies on `std::path::Path::file_stem`: the stem of the path's final
/// component, which depends on the path text alone (a `&str` path always has
/// a UTF-8 stem).
#[verifier::external_body]
fn path_stem(path: &str) -> (r: Option<String>)
    ensures
        opt_view(r) == file_stem_of(path@),
{
    Path::new(path).file_stem().and_then(|s| s.to_str()).map(|s| s.to_string())
}

/// The envelope path: the one given, else the input path with `.enc` appended.
pub open spec fn encrypted_output(input: Seq<char>, output: Option<Seq<char>>) -> Seq<char> {
    match output {
        Some(o) => o,
        None => input + ENCRYPTED_SUFFIX@,
    }
}

/// The plaintext path: the one given, else the input's stem with `_decrypted`
/// appended, else a fixed name.
pub open spec fn decrypted_output(input: Seq<char>, output: Option<Seq<char>>) -> Seq<char> {
    match output {
        Some(o) => o,
        None => match file_stem_of(input) {
            Some(stem) => stem + DECRYPTED_SUFFIX@,
            None => FALLBACK_OUTPUT@,
        },
    }
}

/// Where encryption with `args` writes its envelope.
pub fn encrypted_output_path(args: &EncryptArgs) -> (r: String)
    ensures
        r@ == encrypted_output(args.input@, opt_view(args.output)),
{
    match &args.output {
        Some(o) => o.clone(),
        None => args.input.clone().concat(ENCRYPTED_SUFFIX),
    }
}

/// Where decryption with `args` writes its plaintext.
pub fn decrypted_output_path(args: &DecryptArgs) -> (r: String)
    ensures
        r@ == decrypted_output(args.input@, opt_view(args.output)),
{
    match &args.output {
        Some(o) => o.clone(),
        None => match path_stem(args.input.as_str()) {
            Some(stem) => stem.concat(DECRYPTED_SUFFIX),
            None => String::from_str(FALLBACK_OUTPUT),
        },
    }
}

/// `s` asks for an envelope of `plaintext` under `key` to be written to
/// `path`, creating parent directories; opening it gives `plaintext` back.
pub open spec fn asks_sealed_write(s: Step, path: Seq<char>, key: Seq<u8>, plaintext: Seq<u8>) -> bool {
    s matches Step::Perform(Request::Write { path: p, data, create_parent }) && (p@ == path
        && create_parent && seals(key, plaintext, data@) && opened(key, data@) == Ok::<
        Seq<u8>,
        FileCryptError,
    >(plaintext))
}

/// Where an encryption stands: what it waits for and what it carries.
pub enum EncryptStage {
    /// Waiting for the contents of the given key file.
    LoadingKey { key_path: String },
    /// Waiting for a newly generated key to be written to `key_path`.
    SavingKey { key: Vec<u8>, key_path: String },
    /// Holding the key, waiting for the plaintext.
    ReadingInput { key: Vec<u8> },
    /// Waiting for the envelope to be written to `output`.
    WritingOutput { output: String },
    /// Completed or stopped on an error.
    Finished,
}

/// An encryption of one file in progress. Each call to `resume` hands in the
/// outcome of the last requested file access and yields the next step: load
/// or generate-and-save the key, read the input, seal it, write the envelope.
pub struct EncryptFile {
    pub args: EncryptArgs,
    pub stage: EncryptStage,
    /// Where a generated key was saved, if one was generated.
    pub new_key_path: Option<String>,
}

impl EncryptFile {
    /// Every key the session holds has the length of an AES-256 key.
    pub open spec fn wf(&self) -> bool {
        match self.stage {
            EncryptStage::SavingKey { key, .. } => key@.len() == KEY_SIZE,
            EncryptStage::ReadingInput { key } => key@.len() == KEY_SIZE,
            _ => true,
        }
    }

    /// Advances the encryption with the outcome of the last requested access.
    pub fn resume(&mut self, reply: Reply) -> (step: Step)
        requires
            old(self).wf(),
            !(old(self).stage is Finished),
        ensures
            final(self).wf(),
            final(self).args == old(self).args,
            final(self).new_key_path == old(self).new_key_path,
            match old(self).stage {
                EncryptStage::LoadingKey { key_path } => match reply {
                    Reply::Data(b) => if b@.len() == KEY_SIZE {
                        final(self).stage matches EncryptStage::ReadingInput { key } && (key@ == b@
                            && asks_read(step, old(self).args.input@))
                    } else {
                        final(self).stage is Finished && fails_with(
                            step,
                            FileCryptError::InvalidKeySize { found: b@.len() as usize },
                        )
                    },
                    _ => final(self).stage is Finished && fails_io(step, IoOp::Read, key_path@),
                },
                EncryptStage::SavingKey { key, key_path } => match reply {
                    Reply::Written => final(self).stage matches EncryptStage::ReadingInput { key: k }
                        && (k@ == key@ && asks_read(step, old(self).args.input@)),
                    _ => final(self).stage is Finished && fails_io(step, IoOp::Write, key_path@),
                },
                EncryptStage::ReadingInput { key } => match reply {
                    Reply::Data(pt) => if pt@.len() <= MAX_PLAINTEXT {
                        final(self).stage matches EncryptStage::WritingOutput { output } && (output@
                            == encrypted_output(old(self).args.input@, opt_view(old(self).args.output))
                            && asks_sealed_write(step, output@, key@, pt@))
                    } else {
                        final(self).stage is Finished && fails_with(
                            step,
                            FileCryptError::EncryptionFailed,
                        )
                    },
                    _ => final(self).stage is Finished && fails_io(
                        step,
                        IoOp::Read,
                        old(self).args.input@,
                    ),
                },
                EncryptStage::WritingOutput { output } => final(self).stage is Finished && match reply {
                    Reply::Written => completes(step, output@),
                    _ => fails_io(step, IoOp::Write, output@),
                },
                EncryptStage::Finished => true,
            },
    {
        let mut stage = EncryptStage::Finished;
        std::mem::swap(&mut stage, &mut self.stage);
        match stage {
            EncryptStage::LoadingKey { key_path } => {
                match load_key_from_file(key_path.as_str(), reply) {
                    Ok(key) => {
                        self.stage = EncryptStage::ReadingInput { key };
                        Step::Perform(Request::Read { path: self.args.input.clone() })
                    },
                    Err(e) => Step::Error(e),
                }
            },
            EncryptStage::SavingKey { key, key_path } => match reply {
                Reply::Written => {
                    self.stage = EncryptStage::ReadingInput { key };
                    Step::Perform(Request::Read { path: self.args.input.clone() })
                },
                _ => Step::Error(io_error(IoOp::Write, key_path.as_str())),
            },
            EncryptStage::ReadingInput { key } => match reply {
                Reply::Data(plaintext) => {
                    let output = encrypted_output_path(&self.args);
                    match seal_envelope(key.as_slice(), plaintext.as_slice()) {
                        Ok(env) => {
                            self.stage = EncryptStage::WritingOutput { output: output.clone() };
                            Step::Perform(Request::Write { path: output, data: env, create_parent: true })
                        },
                        Err(e) => Step::Error(e),
                    }
                },
                _ => Step::Error(io_error(IoOp::Read, self.args.input.as_str())),
            },
            EncryptStage::WritingOutput { output } => match reply {
                Reply::Written => Step::Done(output),
                _ => Step::Error(io_error(IoOp::Write, output.as_str())),
            },
            // ruled out by the precondition
            EncryptStage::Finished => Step::Error(FileCryptError::MissingKeyPath),
        }
    }
}

/// Starts encrypting the file named in `args`: with a key file, asks for its
/// contents; without one, generates a key and asks for it to be saved at
/// `DEFAULT_KEY_PATH` (recorded in `new_key_path`) before it is used.
pub fn encrypt_file(args: EncryptArgs) -> (r: (EncryptFile, Step))
    ensures
        r.0.wf(),
        r.0.args == args,
        match args.key {
            Some(p) => r.0.stage matches EncryptStage::LoadingKey { key_path } && (key_path@ == p@
                && r.0.new_key_path is None && asks_read(r.1, p@)),
            None => r.0.stage matches EncryptStage::SavingKey { key, key_path } && (key_path@
                == DEFAULT_KEY_PATH@ && opt_view(r.0.new_key_path) == Some(DEFAULT_KEY_PATH@)
                && asks_write(r.1, DEFAULT_KEY_PATH@, key@, true)),
        },
{
    match copy_opt(&args.key) {
        Some(key_path) => {
            let step = Step::Perform(Request::Read { path: key_path.clone() });
            (EncryptFile { args, stage: EncryptStage::LoadingKey { key_path }, new_key_path: None }, step)
        },
        None => {
            let key = generate_key();
            let request = save_key_to_file(key.as_slice(), DEFAULT_KEY_PATH);
            let stage = EncryptStage::SavingKey {
                key: slice_to_vec(key.as_slice()),
                key_path: String::from_str(DEFAULT_KEY_PATH),
            };
            let new_key_path = Some(String::from_str(DEFAULT_KEY_PATH));
            (EncryptFile { args, stage, new_key_path }, Step::Perform(request))
        },
    }
}

/// Where a decryption stands: what it waits for and what it carries.
pub enum DecryptStage {
    /// Waiting for the contents of the given key file.
    LoadingKey { key_path: String },
    /// Holding the key, waiting for the envelope.
    ReadingInput { key: Vec<u8> },
    /// Waiting for the plaintext to be written to `output`.
    WritingOutput { output: String },
    /// Completed or stopped on an error.
    Finished,
}

/// A decryption of one file in progress. Each call to `resume` hands in the
/// outcome of the last requested file access and yields the next step: load
/// the key, read the envelope, open it, write the plaintext.
pub struct DecryptFile {
    pub args: DecryptArgs,
    pub stage: DecryptStage,
}

impl DecryptFile {
    /// Every key the session holds has the length of an AES-256 key.
    pub open spec fn wf(&self) -> bool {
        match self.stage {
            DecryptStage::ReadingInput { key } => key@.len() == KEY_SIZE,
            _ => true,
        }
    }

    /// Advances the decryption with the outcome of the last requested access.
    pub fn resume(&mut self, reply: Reply) -> (step: Step)
        requires
            old(self).wf(),
            !(old(self).stage is Finished),
        ensures
            final(self).wf(),
            final(self).args == old(self).args,
            match old(self).stage {
                DecryptStage::LoadingKey { key_path } => match reply {
                    Reply::Data(b) => if b@.len() == KEY_SIZE {
                        final(self).stage matches DecryptStage::ReadingInput { key } && (key@ == b@
                            && asks_read(step, old(self).args.input@))
                    } else {
                        final(self).stage is Finished && fails_with(
                            step,
                            FileCryptError::InvalidKeySize { found: b@.len() as usize },
                        )
                    },
                    _ => final(self).stage is Finished && fails_io(step, IoOp::Read, key_path@),
                },
                DecryptStage::ReadingInput { key } => match reply {
                    Reply::Data(data) => match opened(key@, data@) {
                        Ok(pt) => final(self).stage matches DecryptStage::WritingOutput { output } && (
                        output@ == decrypted_output(
                            old(self).args.input@,
                            opt_view(old(self).args.output),
                        ) && asks_write(step, output@, pt, false)),
                        Err(e) => final(self).stage is Finished && fails_with(step, e),
                    },
                    _ => final(self).stage is Finished && fails_io(
                        step,
                        IoOp::Read,
                        old(self).args.input@,
                    ),
                },
                DecryptStage::WritingOutput { output } => final(self).stage is Finished && match reply {
                    Reply::Written => completes(step, output@),
                    _ => fails_io(step, IoOp::Write, output@),
                },
                DecryptStage::Finished => true,
            },
    {
        let mut stage = DecryptStage::Finished;
        std::mem::swap(&mut stage, &mut self.stage);
        match stage {
            DecryptStage::LoadingKey { key_path } => {
                match load_key_from_file(key_path.as_str(), reply) {
                    Ok(key) => {
                        self.stage = DecryptStage::ReadingInput { key };
                        Step::Perform(Request::Read { path: self.args.input.clone() })
                    },
                    Err(e) => Step::Error(e),
                }
            },
            DecryptStage::ReadingInput { key } => match reply {
                Reply::Data(data) => match open_envelope(key.as_slice(), data.as_slice()) {
                    Ok(plaintext) => {
                        let output = decrypted_output_path(&self.args);
                        self.stage = DecryptStage::WritingOutput { output: output.clone() };
                        Step::Perform(
                            Request::Write { path: output, data: plaintext, create_parent: false },
                        )
                    },
                    Err(e) => Step::Error(e),
                },
                _ => Step::Error(io_error(IoOp::Read, self.args.input.as_str())),
            },
            DecryptStage::WritingOutput { output } => match reply {
                Reply::Written => Step::Done(output),
                _ => Step::Error(io_error(IoOp::Write, output.as_str())),
            },
            // ruled out by the precondition
            DecryptStage::Finished => Step::Error(FileCryptError::MissingKeyPath),
        }
    }
}

/// Starts decrypting the file named in `args`. Without a key file it stops at
/// once with `MissingKeyPath`, before any file is touched; otherwise it asks
/// for the key file's contents.
pub fn decrypt_file(args: DecryptArgs) -> (r: (DecryptFile, Step))
    ensures
        r.0.wf(),
        r.0.args == args,
        match args.key {
            Some(p) => r.0.stage matches DecryptStage::LoadingKey { key_path } && (key_path@ == p@
                && asks_read(r.1, p@)),
            None => r.0.stage is Finished && fails_with(r.1, FileCryptError::MissingKeyPath),
        },
{
    match copy_opt(&args.key) {
        Some(key_path) => {
            let step = Step::Perform(Request::Read { path: key_path.clone() });
            (DecryptFile { args, stage: DecryptStage::LoadingKey { key_path } }, step)
        },
        None => (
            DecryptFile { args, stage: DecryptStage::Finished },
            Step::Error(FileCryptError::MissingKeyPath),
        ),
    }
}

} // verus!
