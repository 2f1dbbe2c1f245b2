//! File Manager: creates files and directories in the filesystem model,
//! after validating the name and extension and checking that the target
//! does not already exist, and records a `directory-created` notification
//! for every directory it creates.
//!
//! Each operation is an all-or-nothing existence check followed by a
//! single model mutation; on failure the model is left untouched.

use vstd::prelude::*;
use vstd::string::StringExecFns;
use crate::errors::{ErrorKind, FmError, Subject};
use crate::fs_model::{FsEntry, FsState};
use crate::paths::{dotted, dotted_name, join, join_path};

verus! {

/// Whether `extension` is in the fixed set of recognized extensions:
/// presently exactly `tex`.
pub open spec fn is_valid_extension(extension: Seq<char>) -> bool {
    extension == "tex"@
}

/// Decides whether a file extension is recognized for creation. This is
/// the single extensibility point: further extensions would be added here
/// without touching any caller.
pub fn validate_extension(extension: &str) -> (r: bool)
    ensures
        r == is_valid_extension(extension@),
{
    let e: String = extension.to_owned();
    let t: String = "tex".to_owned();
    e == t
}

/// Records the `directory-created` notifications emitted toward
/// observers, in order, each carrying the created path as its payload.
///
/// Recording never fails; the unverified shell forwards each recorded
/// payload to the real observers and reports a delivery failure as a
/// `NotificationFailure`, without rolling back the completed creation.
pub struct Notifier {
    sent: Vec<String>,
}

impl View for Notifier {
    type V = Seq<Seq<char>>;

    closed spec fn view(&self) -> Seq<Seq<char>> {
        self.sent.deep_view()
    }
}

impl Notifier {
    /// A notifier that has emitted nothing yet.
    pub fn new() -> (r: Self)
        ensures
            r@ == Seq::<Seq<char>>::empty(),
    {
        let r = Notifier { sent: Vec::new() };
        proof {
            assert(r@ =~= Seq::<Seq<char>>::empty());
        }
        r
    }

    /// Emits one notification with the given payload.
    pub fn emit(&mut self, payload: String)
        ensures
            final(self)@ == old(self)@.push(payload@),
    {
        self.sent.push(payload);
        proof {
            assert(self@ =~= old(self)@.push(payload@));
        }
    }

    /// How many notifications have been emitted.
    pub fn count(&self) -> (r: usize)
        ensures
            r == self@.len(),
    {
        self.sent.len()
    }

    /// The payload of the `i`-th emitted notification.
    pub fn payload_at(&self, i: usize) -> (r: &str)
        requires
            i < self@.len(),
        ensures
            r@ == self@[i as int],
    {
        self.sent[i].as_str()
    }
}

/// The full path of the file `name.extension` under `parent`.
pub open spec fn file_path(parent: Seq<char>, name: Seq<char>, extension: Seq<char>) -> Seq<
    char,
> {
    join_path(parent, dotted_name(name, extension))
}

/// The class of error `create_file` returns on these arguments against
/// this filesystem, or `None` where it succeeds.
pub open spec fn create_file_error(
    fs: Map<Seq<char>, FsEntry>,
    parent: Seq<char>,
    name: Seq<char>,
    extension: Seq<char>,
) -> Option<ErrorKind> {
    if name.len() == 0 {
        Some(ErrorKind::EmptyName)
    } else if !is_valid_extension(extension) {
        Some(ErrorKind::InvalidExtension)
    } else if fs.contains_key(file_path(parent, name, extension)) {
        Some(ErrorKind::AlreadyExists)
    } else {
        None
    }
}

/// The filesystem after `create_file`: unchanged on failure; on success a
/// zero-byte file stands at the composed path.
pub open spec fn create_file_next(
    fs: Map<Seq<char>, FsEntry>,
    parent: Seq<char>,
    name: Seq<char>,
    extension: Seq<char>,
) -> Map<Seq<char>, FsEntry> {
    if create_file_error(fs, parent, name, extension) is None {
        fs.insert(file_path(parent, name, extension), FsEntry::File { size: 0 })
    } else {
        fs
    }
}

/// Creates the empty file `file_name.file_extension` in
/// `parent_directory` and returns its full path.
///
/// Fails with `EmptyName` on an empty file name, `InvalidExtension` on an
/// unrecognized extension and `AlreadyExists` where the composed path is
/// already taken; on failure the filesystem is untouched. No notification
/// is emitted for file creation: only directory creation notifies.
pub fn create_file(
    fs: &mut FsState,
    parent_directory: String,
    file_name: String,
    file_extension: String,
) -> (r: Result<String, FmError>)
    ensures
        final(fs)@ == create_file_next(old(fs)@, parent_directory@, file_name@, file_extension@),
        match r {
            Ok(p) => {
                &&& create_file_error(old(fs)@, parent_directory@, file_name@, file_extension@)
                    is None
                &&& p@ == file_path(parent_directory@, file_name@, file_extension@)
            },
            Err(e) => {
                &&& Some(e.kind()) == create_file_error(
                    old(fs)@,
                    parent_directory@,
                    file_name@,
                    file_extension@,
                )
                &&& (e matches FmError::EmptyName(s) ==> s == Subject::File)
                &&& (e matches FmError::InvalidExtension(x) ==> x@ == file_extension@)
                &&& (e matches FmError::AlreadyExists(s, n) ==> s == Subject::File && n@
                    == file_name@)
            },
        },
{
    if file_name.as_str().is_empty() {
        return Err(FmError::EmptyName(Subject::File));
    }
    if !validate_extension(file_extension.as_str()) {
        return Err(FmError::InvalidExtension(file_extension));
    }
    let full_file = dotted(file_name.as_str(), file_extension.as_str());
    let full_path = join(parent_directory.as_str(), full_file.as_str());
    if fs.contains(full_path.as_str()) {
        return Err(FmError::AlreadyExists(Subject::File, file_name));
    }
    fs.put(full_path.clone(), FsEntry::File { size: 0 });
    Ok(full_path)
}

/// The class of error `create_directory` returns on these arguments
/// against this filesystem, or `None` where it succeeds.
pub open spec fn create_directory_error(
    fs: Map<Seq<char>, FsEntry>,
    parent: Seq<char>,
    name: Seq<char>,
) -> Option<ErrorKind> {
    if name.len() == 0 {
        Some(ErrorKind::EmptyName)
    } else if fs.contains_key(join_path(parent, name)) {
        Some(ErrorKind::AlreadyExists)
    } else {
        None
    }
}

/// The filesystem after `create_directory`: unchanged on failure; on
/// success a directory stands at the composed path.
pub open spec fn create_directory_next(
    fs: Map<Seq<char>, FsEntry>,
    parent: Seq<char>,
    name: Seq<char>,
) -> Map<Seq<char>, FsEntry> {
    if create_directory_error(fs, parent, name) is None {
        fs.insert(join_path(parent, name), FsEntry::Directory)
    } else {
        fs
    }
}

/// The notifications after `create_directory`: on success, one more, with
/// the created path as payload; on failure, unchanged.
pub open spec fn create_directory_events(
    events: Seq<Seq<char>>,
    fs: Map<Seq<char>, FsEntry>,
    parent: Seq<char>,
    name: Seq<char>,
) -> Seq<Seq<char>> {
    if create_directory_error(fs, parent, name) is None {
        events.push(join_path(parent, name))
    } else {
        events
    }
}

/// Creates the directory `dir_name` in `parent_directory` and returns its
/// full path, emitting a `directory-created` notification with that path
/// as payload.
///
/// Fails with `EmptyName` on an empty directory name and `AlreadyExists`
/// where the composed path is already taken; on failure the filesystem is
/// untouched and nothing is emitted. The real call behind the model also
/// creates any missing intermediate parent directories.
pub fn create_directory(
    fs: &mut FsState,
    notifier: &mut Notifier,
    parent_directory: String,
    dir_name: String,
) -> (r: Result<String, FmError>)
    ensures
        final(fs)@ == create_directory_next(old(fs)@, parent_directory@, dir_name@),
        final(notifier)@ == create_directory_events(
            old(notifier)@,
            old(fs)@,
            parent_directory@,
            dir_name@,
        ),
        match r {
            Ok(p) => {
                &&& create_directory_error(old(fs)@, parent_directory@, dir_name@) is None
                &&& p@ == join_path(parent_directory@, dir_name@)
            },
            Err(e) => {
                &&& Some(e.kind()) == create_directory_error(
                    old(fs)@,
                    parent_directory@,
                    dir_name@,
                )
                &&& (e matches FmError::EmptyName(s) ==> s == Subject::Directory)
                &&& (e matches FmError::AlreadyExists(s, n) ==> s == Subject::Directory && n@
                    == dir_name@)
            },
        },
{
    if dir_name.as_str().is_empty() {
        return Err(FmError::EmptyName(Subject::Directory));
    }
    let full_path = join(parent_directory.as_str(), dir_name.as_str());
    if fs.contains(full_path.as_str()) {
        return Err(FmError::AlreadyExists(Subject::Directory, dir_name));
    }
    fs.put(full_path.clone(), FsEntry::Directory);
    notifier.emit(full_path.clone());
    Ok(full_path)
}

} // verus!
