//! The caller-visible failure taxonomy of the bridge.

use vstd::prelude::*;

verus! {

/// Everything a bridge operation can fail with.
///
/// Control-channel decode failures never appear here: a confirm-request line
/// whose payload does not decode degrades to an ordinary log line instead.
#[derive(Debug, Clone, PartialEq, Eq)]
pub enum BridgeError {
    /// `start` was called while a session's process was still alive.
    AlreadyRunning,
    /// `respond` was called with no live stdin handle to write to.
    NoActiveSession,
    /// The worker executable could not be launched; holds the OS error text.
    SpawnFailed(Vec<u8>),
    /// A read, write, flush or liveness probe against a live session failed;
    /// holds the OS error text.
    IoFailure(Vec<u8>),
    /// A one-shot invocation completed but reported failure; holds the
    /// rendered message combining exit code, stderr and stdout.
    NonZeroExit(Vec<u8>),
    /// A one-shot invocation succeeded but its output could not be decoded.
    DecodeFailed,
    /// The worker executable could not be located in any of the known places.
    MissingWorker,
    /// A request named a port outside 1-65535.
    InvalidPort,
    /// A request supplied only one of the TLS certificate and key paths.
    TlsConfigMismatch,
    /// A send request's path was empty after trimming.
    EmptyPath,
    /// A send request supplied a host that was empty after trimming.
    EmptyHost,
}

} // verus!
