//! Native backend for a desktop project-management application.
//!
//! Two components, both verified: a local store that persists an opaque
//! string document per filename under the user's configuration directory,
//! and a dispatcher that translates logical user actions (open a folder,
//! reveal a file, place a call, send an email, open a chat) into
//! platform-specific command lines for the host to spawn.

pub mod dispatch;
pub mod encode;
pub mod phone;
pub mod store;
pub mod text;
pub mod uri;

use vstd::prelude::*;

verus! {

/// Every failure this layer can report to its caller.
///
/// Each failure is surfaced synchronously as a descriptive string
/// (see [`BackendError::message`]); nothing here panics or aborts.
#[derive(Debug)]
pub enum BackendError {
    /// The operating system could not report a user configuration directory.
    ConfigDirUnavailable,
    /// A directory, read or write operation failed; the payload is the
    /// full message, with the underlying OS reason interpolated.
    IoError(String),
    /// Every launcher in a dispatch cascade failed to start; the payload is
    /// the full message, with the underlying OS reason interpolated.
    SpawnError(String),
    /// Every file-manager probe failed on a reveal request.
    NoFileManagerFound,
    /// A chat request carried fewer than nine decimal digits.
    InvalidPhoneNumber,
    /// The native folder picker was dismissed without a choice.
    UserCanceled,
}

impl BackendError {
    /// The descriptive string handed back to the caller for this failure.
    pub open spec fn message_spec(&self) -> Seq<char> {
        match self {
            BackendError::ConfigDirUnavailable => "Could not find config directory"@,
            BackendError::IoError(m) => m@,
            BackendError::SpawnError(m) => m@,
            BackendError::NoFileManagerFound => "No supported file manager found"@,
            BackendError::InvalidPhoneNumber => "Invalid phone number: fewer than 9 digits"@,
            BackendError::UserCanceled => "Folder selection was canceled"@,
        }
    }

    /// Renders the failure as the string the caller displays.
    pub fn message(&self) -> (r: String)
        ensures
            r@ == self.message_spec(),
    {
        match self {
            BackendError::ConfigDirUnavailable => "Could not find config directory".to_owned(),
            BackendError::IoError(m) => m.clone(),
            BackendError::SpawnError(m) => m.clone(),
            BackendError::NoFileManagerFound => "No supported file manager found".to_owned(),
            BackendError::InvalidPhoneNumber => "Invalid phone number: fewer than 9 digits".to_owned(),
            BackendError::UserCanceled => "Folder selection was canceled".to_owned(),
        }
    }
}

} // verus!
