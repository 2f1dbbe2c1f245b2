//! Project Manager: defines the `Project` model and creates projects.
//! A project is a named directory containing LaTeX files; creating one
//! makes the directory `path/name` and a seed file `name.tex` inside it,
//! and yields a `Project` value carrying the metadata.

use vstd::prelude::*;
use vstd::string::StringExecFns;
use crate::errors::{ErrorKind, FmError, Subject};
use crate::file_manager::{create_file, file_path};
use crate::fs_model::{FsEntry, FsState};
use crate::paths::{join, join_path, lemma_dotted_name_len, lemma_join_path_len, dotted_name};

verus! {

/// A reading of the local clock, as milliseconds since the Unix epoch.
#[derive(Clone, Copy, Debug, PartialEq, Eq, Structural)]
pub struct Timestamp {
    pub millis: i64,
}

/// Relies on `chrono::Local::now` and `chrono::DateTime::timestamp_millis`
/// for the current local time; nothing can be promised of a clock
/// reading.
#[verifier::external_body]
fn now_timestamp() -> (t: Timestamp) {
    Timestamp { millis: chrono::Local::now().timestamp_millis() }
}

/// The project's own directory: `path/name`.
pub open spec fn project_dir(path: Seq<char>, name: Seq<char>) -> Seq<char> {
    join_path(path, name)
}

/// The seed file inside the project directory: `path/name/name.tex`.
pub open spec fn seed_file(path: Seq<char>, name: Seq<char>) -> Seq<char> {
    file_path(project_dir(path, name), name, "tex"@)
}

/// The class of error `Project::new` returns on these arguments against
/// this filesystem, or `None` where it succeeds. A taken project
/// directory and a taken seed path both surface as `AlreadyExists`.
pub open spec fn create_project_error(
    fs: Map<Seq<char>, FsEntry>,
    name: Seq<char>,
    path: Seq<char>,
) -> Option<ErrorKind> {
    if name.len() == 0 {
        Some(ErrorKind::EmptyName)
    } else if fs.contains_key(project_dir(path, name)) {
        Some(ErrorKind::AlreadyExists)
    } else if fs.contains_key(seed_file(path, name)) {
        Some(ErrorKind::AlreadyExists)
    } else {
        None
    }
}

/// The filesystem after `Project::new`. On success both the project
/// directory and the zero-byte seed file stand; where only the seed path
/// was taken, the freshly created directory is intentionally left in
/// place (no rollback).
pub open spec fn create_project_next(
    fs: Map<Seq<char>, FsEntry>,
    name: Seq<char>,
    path: Seq<char>,
) -> Map<Seq<char>, FsEntry> {
    if name.len() == 0 || fs.contains_key(project_dir(path, name)) {
        fs
    } else {
        let with_dir = fs.insert(project_dir(path, name), FsEntry::Directory);
        if fs.contains_key(seed_file(path, name)) {
            with_dir
        } else {
            with_dir.insert(seed_file(path, name), FsEntry::File { size: 0 })
        }
    }
}

/// A project: a directory of LaTeX files with associated metadata.
///
/// A `Project` value is only handed out by `new` after its backing
/// directory and seed file stand in the filesystem; the counter and the
/// timestamps are plain in-memory metadata that callers keep consistent
/// with the disk themselves.
#[derive(Debug, Clone)]
pub struct Project {
    name: String,
    path: String,
    creation_date: Timestamp,
    last_modification_date: Timestamp,
    amount_of_files: i32,
}

impl Project {
    /// The project name.
    pub closed spec fn name_spec(self) -> Seq<char> {
        self.name@
    }

    /// The parent path in which the project directory resides.
    pub closed spec fn path_spec(self) -> Seq<char> {
        self.path@
    }

    /// When the project was created.
    pub closed spec fn creation_date_spec(self) -> Timestamp {
        self.creation_date
    }

    /// When the project was last modified.
    pub closed spec fn last_modification_date_spec(self) -> Timestamp {
        self.last_modification_date
    }

    /// The recorded number of files in the project.
    pub closed spec fn amount_of_files_spec(self) -> i32 {
        self.amount_of_files
    }

    /// Well-formedness: the file counter is never negative.
    pub open spec fn wf(self) -> bool {
        self.amount_of_files_spec() >= 0
    }

    /// Creates a new project: the directory `path/name`, then an initial
    /// `name.tex` file inside it. Both timestamps are set to the current
    /// local time and `amount_of_files` starts at 1, for the seed file.
    ///
    /// Fails with `EmptyName` on an empty name, touching nothing, and
    /// with `AlreadyExists` where `path/name` is already taken, touching
    /// nothing. Where only the seed path inside the fresh directory is
    /// taken, the File Manager's error is propagated verbatim and the
    /// directory is left in place: the error says which step failed, and
    /// there is no rollback.
    pub fn new(fs: &mut FsState, name: String, path: String) -> (r: Result<Project, FmError>)
        ensures
            final(fs)@ == create_project_next(old(fs)@, name@, path@),
            match r {
                Ok(p) => {
                    &&& create_project_error(old(fs)@, name@, path@) is None
                    &&& p.wf()
                    &&& p.name_spec() == name@
                    &&& p.path_spec() == path@
                    &&& p.amount_of_files_spec() == 1
                },
                Err(e) => {
                    &&& Some(e.kind()) == create_project_error(old(fs)@, name@, path@)
                    &&& (e matches FmError::EmptyName(s) ==> s == Subject::Project)
                    &&& (e matches FmError::AlreadyExists(s, n) ==> n@ == name@ && (s
                        == Subject::Project || s == Subject::File) && (s == Subject::Project
                        ==> old(fs)@.contains_key(project_dir(path@, name@))) && (s
                        == Subject::File ==> old(fs)@.contains_key(seed_file(path@, name@))))
                },
            },
    {
        if name.as_str().is_empty() {
            return Err(FmError::EmptyName(Subject::Project));
        }
        let creation_date = now_timestamp();
        let last_modification_date = now_timestamp();
        let full_path = join(path.as_str(), name.as_str());
        if fs.contains(full_path.as_str()) {
            return Err(FmError::AlreadyExists(Subject::Project, name));
        }
        fs.put(full_path.clone(), FsEntry::Directory);
        proof {
            // The seed path is strictly longer than the directory path,
            // so creating the directory cannot have taken the seed path.
            lemma_join_path_len(project_dir(path@, name@), dotted_name(name@, "tex"@));
            lemma_dotted_name_len(name@, "tex"@);
        }
        // The start file is a LaTeX file named after the project.
        match create_file(fs, full_path, name.clone(), "tex".to_owned()) {
            Ok(_) => {},
            Err(e) => {
                return Err(e);
            },
        }
        Ok(
            Project {
                name,
                path,
                creation_date,
                last_modification_date,
                amount_of_files: 1,
            },
        )
    }

    /// Returns the project name.
    pub fn get_name(&self) -> (r: &str)
        ensures
            r@ == self.name_spec(),
    {
        self.name.as_str()
    }

    /// Returns the parent path where the project directory lives.
    pub fn get_path(&self) -> (r: &str)
        ensures
            r@ == self.path_spec(),
    {
        self.path.as_str()
    }

    /// Returns when the project was created.
    pub fn get_creation_date(&self) -> (r: Timestamp)
        ensures
            r == self.creation_date_spec(),
    {
        self.creation_date
    }

    /// Returns when the project was last modified.
    pub fn get_last_modification_date(&self) -> (r: Timestamp)
        ensures
            r == self.last_modification_date_spec(),
    {
        self.last_modification_date
    }

    /// Returns the current file count.
    pub fn get_amount_of_files(&self) -> (r: i32)
        ensures
            r == self.amount_of_files_spec(),
    {
        self.amount_of_files
    }

    /// Overwrites the file count with `new_amount`. No disk state is
    /// touched: the caller answers for keeping the count consistent.
    pub fn set_amount_of_files(&mut self, new_amount: i32)
        requires
            new_amount >= 0,
        ensures
            final(self).amount_of_files_spec() == new_amount,
            final(self).name_spec() == old(self).name_spec(),
            final(self).path_spec() == old(self).path_spec(),
            final(self).creation_date_spec() == old(self).creation_date_spec(),
            final(self).last_modification_date_spec() == old(self).last_modification_date_spec(),
            final(self).wf(),
    {
        self.amount_of_files = new_amount;
    }

    /// Increments the file count by one. No disk state is touched.
    pub fn increment_amount_of_files(&mut self)
        requires
            old(self).amount_of_files_spec() < i32::MAX,
        ensures
            final(self).amount_of_files_spec() == old(self).amount_of_files_spec() + 1,
            final(self).name_spec() == old(self).name_spec(),
            final(self).path_spec() == old(self).path_spec(),
            final(self).creation_date_spec() == old(self).creation_date_spec(),
            final(self).last_modification_date_spec() == old(self).last_modification_date_spec(),
    {
        self.amount_of_files = self.amount_of_files + 1;
    }

    /// Reassembles a project value from recorded metadata, e.g. one
    /// handed back by the frontend. The filesystem is not consulted.
    pub fn from_parts(
        name: String,
        path: String,
        creation_date: Timestamp,
        last_modification_date: Timestamp,
        amount_of_files: i32,
    ) -> (r: Project)
        requires
            amount_of_files >= 0,
        ensures
            r.name_spec() == name@,
            r.path_spec() == path@,
            r.creation_date_spec() == creation_date,
            r.last_modification_date_spec() == last_modification_date,
            r.amount_of_files_spec() == amount_of_files,
            r.wf(),
    {
        Project { name, path, creation_date, last_modification_date, amount_of_files }
    }
}

} // verus!
