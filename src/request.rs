use vstd::prelude::*;
use crate::error::{FileCryptError, IoOp};

verus! {

/// File access that a pipeline asks its caller to perform.
#[derive(Debug)]
pub enum Request {
    /// Read the whole file at `path`.
    Read { path: String },
    /// Replace the contents of the file at `path` with `data`, in one write;
    /// where `create_parent` holds, create the missing parent directories first.
    Write { path: String, data: Vec<u8>, create_parent: bool },
}

/// What the caller reports back after performing a `Request`.
#[derive(Debug)]
pub enum Reply {
    /// The file was read and held these bytes.
    Data(Vec<u8>),
    /// The write completed.
    Written,
    /// The access failed.
    Failed,
}

/// What a pipeline does next.
#[derive(Debug)]
pub enum Step {
    /// Perform this file access and report the outcome.
    Perform(Request),
    /// The operation completed; the path of the file it produced.
    Done(String),
    /// The operation stopped on this error.
    Error(FileCryptError),
}

/// `r` is a request to read the file at `path`.
pub open spec fn reads(r: Request, path: Seq<char>) -> bool {
    r matches Request::Read { path: p } && p@ == path
}

/// `r` is a request to write `data` to the file at `path`.
pub open spec fn writes(r: Request, path: Seq<char>, data: Seq<u8>, create_parent: bool) -> bool {
    r matches Request::Write { path: p, data: d, create_parent: c } && p@ == path && d@ == data
        && c == create_parent
}

/// `e` reports a failed file access of kind `op` on `path`.
pub open spec fn io_failure(e: FileCryptError, op: IoOp, path: Seq<char>) -> bool {
    e matches FileCryptError::Io { op: o, path: p } && o == op && p@ == path
}

/// `s` asks for the file at `path` to be read.
pub open spec fn asks_read(s: Step, path: Seq<char>) -> bool {
    s matches Step::Perform(q) && reads(q, path)
}

/// `s` asks for `data` to be written to the file at `path`.
pub open spec fn asks_write(s: Step, path: Seq<char>, data: Seq<u8>, create_parent: bool) -> bool {
    s matches Step::Perform(q) && writes(q, path, data, create_parent)
}

/// `s` stops on a failed access of kind `op` on `path`.
pub open spec fn fails_io(s: Step, op: IoOp, path: Seq<char>) -> bool {
    s matches Step::Error(e) && io_failure(e, op, path)
}

/// `s` stops on the error `e`.
pub open spec fn fails_with(s: Step, e: FileCryptError) -> bool {
    s matches Step::Error(f) && f == e
}

/// `s` reports success, naming the file produced at `path`.
pub open spec fn completes(s: Step, path: Seq<char>) -> bool {
    s matches Step::Done(o) && o@ == path
}

/// The I/O error for `op` on `path`.
pub fn io_error(op: IoOp, path: &str) -> (e: FileCryptError)
    ensures
        io_failure(e, op, path@),
{
    FileCryptError::Io { op, path: path.to_owned() }
}

} // verus!
