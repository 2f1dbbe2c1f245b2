//! Error taxonomy for the file and project creation operations.
//!
//! Every failure is surfaced to the caller as a tagged variant carrying
//! enough context (the name or extension involved, or the underlying
//! message) to render the user-facing string that `message` produces.

use vstd::prelude::*;
use vstd::string::StringExecFns;

verus! {

/// Which kind of entity an operation was creating when it failed; it
/// selects the wording of the rendered message.
#[derive(Clone, Copy, Debug, PartialEq, Eq)]
pub enum Subject {
    File,
    Directory,
    Project,
}

/// The bare taxonomy of failures, without payloads; contracts use it to
/// say which class of error an operation returns.
#[derive(Clone, Copy, Debug, PartialEq, Eq)]
pub enum ErrorKind {
    EmptyName,
    InvalidExtension,
    AlreadyExists,
    IoFailure,
    NotificationFailure,
}

/// An error from a creation operation. `EmptyName` and `AlreadyExists`
/// carry the subject so the message matches the operation; the payload
/// strings carry the name, extension or underlying message involved.
#[derive(Debug, PartialEq, Eq)]
pub enum FmError {
    EmptyName(Subject),
    InvalidExtension(String),
    AlreadyExists(Subject, String),
    IoFailure(String),
    NotificationFailure(String),
}

impl FmError {
    /// The taxonomy class of this error.
    pub open spec fn kind(self) -> ErrorKind {
        match self {
            FmError::EmptyName(_) => ErrorKind::EmptyName,
            FmError::InvalidExtension(_) => ErrorKind::InvalidExtension,
            FmError::AlreadyExists(_, _) => ErrorKind::AlreadyExists,
            FmError::IoFailure(_) => ErrorKind::IoFailure,
            FmError::NotificationFailure(_) => ErrorKind::NotificationFailure,
        }
    }

    /// The user-facing message for this error, as a sequence of characters.
    pub open spec fn message_spec(self) -> Seq<char> {
        match self {
            FmError::EmptyName(Subject::File) => "File name can't be empty"@,
            FmError::EmptyName(Subject::Directory) => "Directory cannot be empty"@,
            FmError::EmptyName(Subject::Project) => "Projects must have a name that isn't empty"@,
            FmError::InvalidExtension(ext) => "The extension "@ + ext@ + " isn't valid"@,
            FmError::AlreadyExists(Subject::File, name) => "File "@ + name@ + " already exists"@,
            FmError::AlreadyExists(Subject::Directory, name) => "Directory "@ + name@
                + " already exists"@,
            FmError::AlreadyExists(Subject::Project, name) => "Project "@ + name@
                + " already exists"@,
            FmError::IoFailure(msg) => msg@,
            FmError::NotificationFailure(msg) => msg@,
        }
    }

    /// Renders the error as the descriptive string shown to the user.
    pub fn message(&self) -> (r: String)
        ensures
            r@ == self.message_spec(),
    {
        match self {
            FmError::EmptyName(Subject::File) => "File name can't be empty".to_owned(),
            FmError::EmptyName(Subject::Directory) => "Directory cannot be empty".to_owned(),
            FmError::EmptyName(Subject::Project) => "Projects must have a name that isn't empty"
                .to_owned(),
            FmError::InvalidExtension(ext) => {
                let mut s: String = "The extension ".to_owned();
                s.append(ext.as_str());
                s.append(" isn't valid");
                s
            },
            FmError::AlreadyExists(Subject::File, name) => {
                let mut s: String = "File ".to_owned();
                s.append(name.as_str());
                s.append(" already exists");
                s
            },
            FmError::AlreadyExists(Subject::Directory, name) => {
                let mut s: String = "Directory ".to_owned();
                s.append(name.as_str());
                s.append(" already exists");
                s
            },
            FmError::AlreadyExists(Subject::Project, name) => {
                let mut s: String = "Project ".to_owned();
                s.append(name.as_str());
                s.append(" already exists");
                s
            },
            FmError::IoFailure(msg) => msg.clone(),
            FmError::NotificationFailure(msg) => msg.clone(),
        }
    }
}

} // verus!
