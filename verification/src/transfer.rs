//! Preparing one whole-file copy to the remote host. The artifact is read
//! fully into memory by the caller — deployment bundles, not unbounded
//! streams — and this module pins down what is announced to the remote
//! side: the destination path, the exact byte length of the local contents,
//! and the fixed permission bits. The caller then writes the bytes and
//! performs the four-step close: send end-of-input, wait for its
//! acknowledgment, close the channel, wait for the close to be acknowledged;
//! any I/O failure on its side becomes a `Transfer` error.

use vstd::prelude::*;
use crate::errors::{ConfigProblem, DeployError};

verus! {

/// What one remote file copy announces before any byte is written.
pub struct TransferDescriptor {
    /// Destination path on the remote host.
    pub remote_path: String,
    /// Byte length announced to the remote side: exactly the length of the
    /// local contents handed over with this descriptor.
    pub byte_len: u64,
    /// Permission bits of the remote copy, always `0o644`.
    pub mode: i32,
}

/// Builds the transfer for one upload from what the caller read off the
/// local disk: `None` when the local file could not be opened, which fails
/// before any network activity; otherwise the descriptor announces exactly
/// the contents' length, with fixed mode `0o644`, and the bytes to write
/// are handed back untouched.
pub fn prepare_upload(remote_path: &str, contents: Option<Vec<u8>>) -> (r: Result<
    (TransferDescriptor, Vec<u8>),
    DeployError,
>)
    ensures
        contents is Some <==> r is Ok,
        match r {
            Ok(pair) => {
                &&& (contents matches Some(b) && pair.1@ == b@)
                &&& pair.0.remote_path@ == remote_path@
                &&& pair.0.byte_len == pair.1@.len()
                &&& pair.0.mode == 0o644
            },
            Err(e) => e matches DeployError::Config(ConfigProblem::MissingLocalFile),
        },
{
    match contents {
        Some(bytes) => {
            let byte_len = bytes.len() as u64;
            let descriptor = TransferDescriptor {
                remote_path: String::from_str(remote_path),
                byte_len,
                mode: 0o644,
            };
            Ok((descriptor, bytes))
        },
        None => Err(DeployError::Config(ConfigProblem::MissingLocalFile)),
    }
}

} // verus!
