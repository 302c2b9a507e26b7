//! Errors of the auth storage, each with the I/O error kind it surfaces as.

use vstd::prelude::*;

verus! {

/// The kinds of I/O error the storage reports.
#[derive(Debug, Clone, Copy, PartialEq, Eq, Structural)]
pub enum ErrorKind {
    NotFound,
    InvalidData,
    InvalidInput,
    Other,
}

/// Why an auth storage operation failed.
#[derive(Debug, PartialEq, Eq)]
pub enum AuthError {
    /// The profiles carry a version other than the supported one.
    UnsupportedProfilesVersion(u32),
    /// A profile id is empty or only whitespace.
    EmptyProfileId,
    /// A profile label is empty or only whitespace.
    EmptyProfileLabel,
    /// A profile label has more than 80 characters after trimming.
    ProfileLabelTooLong,
    /// Two profiles share an id.
    DuplicateProfileId,
    /// No stored auth, and the mutation cannot seed one.
    AuthDataUnavailable,
    /// No stored active auth to attach a profile to.
    ActiveAuthDataUnavailable,
    /// The operation names the active profile, which it may not touch.
    ActiveProfileTargeted,
    /// A transaction marker matches neither stored copy.
    UnresolvedTransaction,
    /// File and keyring hold different multi-account stores.
    ConflictingStores,
    /// An error of the underlying storage.
    Io { kind: ErrorKind, message: String },
}

impl AuthError {
    pub open spec fn spec_kind(&self) -> ErrorKind {
        match self {
            AuthError::UnsupportedProfilesVersion(_) => ErrorKind::InvalidData,
            AuthError::EmptyProfileId => ErrorKind::InvalidData,
            AuthError::EmptyProfileLabel => ErrorKind::InvalidData,
            AuthError::ProfileLabelTooLong => ErrorKind::InvalidData,
            AuthError::DuplicateProfileId => ErrorKind::InvalidData,
            AuthError::AuthDataUnavailable => ErrorKind::Other,
            AuthError::ActiveAuthDataUnavailable => ErrorKind::Other,
            AuthError::ActiveProfileTargeted => ErrorKind::InvalidInput,
            AuthError::UnresolvedTransaction => ErrorKind::InvalidData,
            AuthError::ConflictingStores => ErrorKind::InvalidData,
            AuthError::Io { kind, .. } => *kind,
        }
    }

    /// The I/O error kind this error surfaces as.
    pub fn kind(&self) -> (k: ErrorKind)
        ensures
            k == self.spec_kind(),
    {
        match self {
            AuthError::UnsupportedProfilesVersion(_) => ErrorKind::InvalidData,
            AuthError::EmptyProfileId => ErrorKind::InvalidData,
            AuthError::EmptyProfileLabel => ErrorKind::InvalidData,
            AuthError::ProfileLabelTooLong => ErrorKind::InvalidData,
            AuthError::DuplicateProfileId => ErrorKind::InvalidData,
            AuthError::AuthDataUnavailable => ErrorKind::Other,
            AuthError::ActiveAuthDataUnavailable => ErrorKind::Other,
            AuthError::ActiveProfileTargeted => ErrorKind::InvalidInput,
            AuthError::UnresolvedTransaction => ErrorKind::InvalidData,
            AuthError::ConflictingStores => ErrorKind::InvalidData,
            AuthError::Io { kind, .. } => *kind,
        }
    }
}

impl Clone for AuthError {
    fn clone(&self) -> (r: Self)
        ensures
            r.spec_kind() == self.spec_kind(),
            !(self is Io) ==> r == *self,
            self is Io ==> r is Io && r->message@ == self->message@,
    {
        match self {
            AuthError::UnsupportedProfilesVersion(v) => AuthError::UnsupportedProfilesVersion(*v),
            AuthError::EmptyProfileId => AuthError::EmptyProfileId,
            AuthError::EmptyProfileLabel => AuthError::EmptyProfileLabel,
            AuthError::ProfileLabelTooLong => AuthError::ProfileLabelTooLong,
            AuthError::DuplicateProfileId => AuthError::DuplicateProfileId,
            AuthError::AuthDataUnavailable => AuthError::AuthDataUnavailable,
            AuthError::ActiveAuthDataUnavailable => AuthError::ActiveAuthDataUnavailable,
            AuthError::ActiveProfileTargeted => AuthError::ActiveProfileTargeted,
            AuthError::UnresolvedTransaction => AuthError::UnresolvedTransaction,
            AuthError::ConflictingStores => AuthError::ConflictingStores,
            AuthError::Io { kind, message } => AuthError::Io { kind: *kind, message: message.clone() },
        }
    }
}

} // verus!
