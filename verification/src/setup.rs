//! Errors of setting a connection up. None of them is retried.

use std::io::ErrorKind;
use vstd::prelude::*;

verus! {

/// Why an end could not be set up.
#[derive(Debug)]
pub enum SetupError {
    /// Resolving the configured host and port gave no address.
    AddressUnresolved,
    /// The certificate file is no well-formed PEM text, or one of its
    /// certificates cannot be read as a trust anchor.
    InvalidCertificate,
    /// The file of trusted certificates is no well-formed PEM text. The
    /// error says why.
    TrustUnreadable(std::io::Error),
    /// The key file is no well-formed PEM text. The error says why.
    KeyUnreadable(std::io::Error),
    /// The key file holds no PEM section of a known sort.
    KeyMissing,
    /// The first PEM section of the key file is no PKCS#8 private key.
    KeyNotPkcs8,
}

impl SetupError {
    /// The kind under which an I/O layer reports this error. An unreadable
    /// text keeps the kind of the error it carries, so none is given for it.
    pub open spec fn spec_kind(self) -> Option<ErrorKind> {
        match self {
            SetupError::AddressUnresolved => Some(ErrorKind::InvalidInput),
            SetupError::InvalidCertificate => Some(ErrorKind::InvalidInput),
            SetupError::TrustUnreadable(_) => None,
            SetupError::KeyUnreadable(_) => None,
            SetupError::KeyMissing => Some(ErrorKind::NotFound),
            SetupError::KeyNotPkcs8 => Some(ErrorKind::InvalidInput),
        }
    }

    /// The kind under which an I/O layer reports this error.
    pub fn kind(&self) -> (k: Option<ErrorKind>)
        ensures
            k == self.spec_kind(),
    {
        match self {
            SetupError::AddressUnresolved => Some(ErrorKind::InvalidInput),
            SetupError::InvalidCertificate => Some(ErrorKind::InvalidInput),
            SetupError::TrustUnreadable(_) => None,
            SetupError::KeyUnreadable(_) => None,
            SetupError::KeyMissing => Some(ErrorKind::NotFound),
            SetupError::KeyNotPkcs8 => Some(ErrorKind::InvalidInput),
        }
    }
}

} // verus!
