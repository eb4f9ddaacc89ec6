//! Error types for the sandbox.

use vstd::prelude::*;

verus! {

/// Why a transform request cannot be turned into a command line.
#[derive(Debug, PartialEq, Eq, Clone, Copy)]
pub enum SandboxTransformError {
    /// A Linux sandbox was requested without the helper executable's path.
    MissingLinuxSandboxExecutable,
    /// Bubblewrap is required but the host is WSL1, where it cannot run.
    Wsl1UnsupportedForBubblewrap,
    /// A Seatbelt sandbox was requested where no Seatbelt command line can be
    /// built: off macOS, or without generated Seatbelt arguments.
    SeatbeltUnavailable,
}

/// Top-level error type returned by the public sandbox API.
#[derive(Debug)]
pub enum SandboxError {
    Transform(SandboxTransformError),
    NotAbsolutePath(String),
    InvalidPolicy(String),
    Other(String),
}

} // verus!
