//! Error taxonomy of the vault and client subsystem.
//!
//! Each kind has its own propagation policy: configuration errors are fatal
//! at startup, cryptographic failures are always recovered to "no credential",
//! protocol and remote errors surface to the caller, and an unsupported
//! capability names the minimum version it needs.

use vstd::prelude::*;

verus! {

/// Invalid or missing key material; fatal at startup, never raised later.
#[derive(Debug, Clone, Copy, PartialEq, Eq, Structural)]
pub enum ConfigError {
    /// The key file does not hold exactly 32 hex-encoded bytes.
    InvalidKey,
    /// The platform defines no configuration directory.
    NoConfigDir,
    /// The operating system's entropy source failed.
    Entropy,
}

/// Decrypt or verify failure.  A short payload, a decode failure and a tag
/// mismatch are deliberately indistinguishable: one kind, no oracle.
#[derive(Debug, Clone, Copy, PartialEq, Eq, Structural)]
pub enum CryptoError {
    Invalid,
}

/// The remote service reported a version string this client cannot read.
#[derive(Debug, Clone, Copy, PartialEq, Eq, Structural)]
pub enum ProtocolError {
    BadVersion,
}

/// The operating system's credential store could not serve the request.
#[derive(Debug, Clone, Copy, PartialEq, Eq, Structural)]
pub enum SecretStoreError {
    Unavailable,
}

/// A remote call failed: either a non-2xx status (with the raw body kept for
/// diagnostics) or a response body that did not decode as the expected shape.
#[derive(Debug)]
pub enum RemoteError {
    Status { code: u16, body: String },
    Decode,
}

/// A capability was requested below the minimum remote version that offers
/// it.  The minimum is carried so the caller can name it.
#[derive(Debug, Clone, Copy, PartialEq, Eq, Structural)]
pub struct UnsupportedError {
    pub min_major: u32,
    pub min_minor: u32,
}

} // verus!
