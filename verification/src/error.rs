//! The failures that stop the server at startup.
//!
//! All of them are fatal: the process does not start with part of its
//! configuration. Each value carries what an operator needs to find the
//! mistake, the file or address and the underlying cause.

use vstd::prelude::*;

verus! {

/// What is wrong with a file that the configuration should name.
#[derive(Debug, Clone, PartialEq, Eq)]
pub enum FileFault {
    /// The configuration names no file although a secure transport is enabled.
    NotConfigured,
    /// The file could not be read.
    Unreadable { path: String, cause: String },
    /// The file was read and does not hold what it should.
    Malformed { path: String },
}

/// A failure at startup.
#[derive(Debug, Clone, PartialEq, Eq)]
pub enum StartupError {
    /// The configuration file could not be read or written.
    ConfigIo { cause: String },
    /// The configuration file is present and not valid.
    ConfigParse { cause: String },
    /// The certificate chain could not be loaded.
    CertificateLoad(FileFault),
    /// The private-key file could not be loaded.
    KeyLoad(FileFault),
    /// The key file holds no private key in a supported format.
    KeyFormat { path: String },
    /// The private key does not belong to the first certificate of the chain.
    CertificateKeyMismatch { certificate: String, key: String },
    /// A listener that the configuration asks for could not be bound.
    ListenerBind { address: String, cause: String },
}

} // verus!
