//! Laws relating the creation operations and the registry operations
//! across several calls, stated over the same spec-level transitions that
//! the executable functions' contracts use.

use vstd::prelude::*;
use crate::app_state::{add_project_spec, keeps_pred, remove_project_spec};
use crate::errors::ErrorKind;
use crate::file_manager::{
    create_directory_error, create_directory_events, create_directory_next, create_file_error,
    create_file_next, file_path, is_valid_extension,
};
use crate::fs_model::FsEntry;
use crate::paths::join_path;
use crate::project_manager::{
    create_project_error, create_project_next, project_dir, seed_file,
};

verus! {

/// On a parent where the composed target path is free, creating a file
/// with a non-empty name and a recognized extension succeeds, and it
/// leaves a zero-byte file at that path and touches nothing else.
pub proof fn lemma_create_file_fresh_succeeds(
    fs: Map<Seq<char>, FsEntry>,
    parent: Seq<char>,
    name: Seq<char>,
    extension: Seq<char>,
)
    requires
        name.len() > 0,
        is_valid_extension(extension),
        !fs.contains_key(file_path(parent, name, extension)),
    ensures
        create_file_error(fs, parent, name, extension) is None,
        create_file_next(fs, parent, name, extension) == fs.insert(
            file_path(parent, name, extension),
            FsEntry::File { size: 0 },
        ),
{
}

/// Creating a file with an empty name always fails with `EmptyName`,
/// whatever the other arguments and the filesystem, and changes nothing.
pub proof fn lemma_create_file_empty_name(
    fs: Map<Seq<char>, FsEntry>,
    parent: Seq<char>,
    name: Seq<char>,
    extension: Seq<char>,
)
    requires
        name.len() == 0,
    ensures
        create_file_error(fs, parent, name, extension) == Some(ErrorKind::EmptyName),
        create_file_next(fs, parent, name, extension) == fs,
{
}

/// Creating a file with a non-empty name and an unrecognized extension
/// fails with `InvalidExtension`, whatever the filesystem, and changes
/// nothing. (With an empty name the emptiness check comes first.)
pub proof fn lemma_create_file_invalid_extension(
    fs: Map<Seq<char>, FsEntry>,
    parent: Seq<char>,
    name: Seq<char>,
    extension: Seq<char>,
)
    requires
        name.len() > 0,
        !is_valid_extension(extension),
    ensures
        create_file_error(fs, parent, name, extension) == Some(ErrorKind::InvalidExtension),
        create_file_next(fs, parent, name, extension) == fs,
{
}

/// Idempotence of failure: where creating a directory succeeds, creating
/// it again with identical arguments fails with `AlreadyExists`, and the
/// second call leaves both the filesystem and the emitted notifications
/// exactly as the first call left them.
pub proof fn lemma_create_directory_repeat(
    fs: Map<Seq<char>, FsEntry>,
    events: Seq<Seq<char>>,
    parent: Seq<char>,
    name: Seq<char>,
)
    requires
        create_directory_error(fs, parent, name) is None,
    ensures
        ({
            let fs1 = create_directory_next(fs, parent, name);
            let ev1 = create_directory_events(events, fs, parent, name);
            &&& create_directory_error(fs1, parent, name) == Some(ErrorKind::AlreadyExists)
            &&& create_directory_next(fs1, parent, name) == fs1
            &&& create_directory_events(ev1, fs1, parent, name) == ev1
        }),
{
    let fs1 = create_directory_next(fs, parent, name);
    assert(fs1.contains_key(join_path(parent, name)));
}

/// Creating a project twice in sequence: where the first call succeeds,
/// the second fails with `AlreadyExists` and leaves the filesystem
/// exactly as the first call left it.
pub proof fn lemma_create_project_repeat(
    fs: Map<Seq<char>, FsEntry>,
    name: Seq<char>,
    path: Seq<char>,
)
    requires
        create_project_error(fs, name, path) is None,
    ensures
        ({
            let fs1 = create_project_next(fs, name, path);
            &&& create_project_error(fs1, name, path) == Some(ErrorKind::AlreadyExists)
            &&& create_project_next(fs1, name, path) == fs1
        }),
{
    let fs1 = create_project_next(fs, name, path);
    assert(fs1.contains_key(project_dir(path, name)));
}

/// Creating a project with an empty name fails with `EmptyName` and
/// creates nothing, whatever the filesystem and the parent path.
pub proof fn lemma_create_project_empty_name(
    fs: Map<Seq<char>, FsEntry>,
    name: Seq<char>,
    path: Seq<char>,
)
    requires
        name.len() == 0,
    ensures
        create_project_error(fs, name, path) == Some(ErrorKind::EmptyName),
        create_project_next(fs, name, path) == fs,
{
}

/// Where a project creation succeeds, the project directory and the
/// zero-byte seed file both stand in the resulting filesystem.
pub proof fn lemma_create_project_artifacts(
    fs: Map<Seq<char>, FsEntry>,
    name: Seq<char>,
    path: Seq<char>,
)
    requires
        create_project_error(fs, name, path) is None,
    ensures
        ({
            let fs1 = create_project_next(fs, name, path);
            &&& fs1.contains_key(project_dir(path, name))
            &&& fs1[project_dir(path, name)] == FsEntry::Directory
            &&& fs1.contains_key(seed_file(path, name))
            &&& fs1[seed_file(path, name)] == (FsEntry::File { size: 0 })
            &&& forall|p: Seq<char>|
                p != project_dir(path, name) && p != seed_file(path, name) ==> (
                #[trigger] fs1.contains_key(p) <==> fs.contains_key(p)) && (fs.contains_key(p)
                    ==> fs1[p] == fs[p])
        }),
{
    crate::paths::lemma_join_path_len(project_dir(path, name), crate::paths::dotted_name(
        name,
        "tex"@,
    ));
    crate::paths::lemma_dotted_name_len(name, "tex"@);
}

/// Two project names added from two concurrent tasks land in the
/// registry in either interleaving: both orders contain both names, they
/// are permutations of each other, and removing the first name afterward
/// leaves the same list either way, with the second name still present.
pub proof fn lemma_concurrent_adds_then_remove(
    projects: Seq<Seq<char>>,
    a: Seq<char>,
    b: Seq<char>,
)
    requires
        a != b,
    ensures
        ({
            let ab = add_project_spec(add_project_spec(projects, a), b);
            let ba = add_project_spec(add_project_spec(projects, b), a);
            &&& ab.contains(a) && ab.contains(b)
            &&& ba.contains(a) && ba.contains(b)
            &&& ab.to_multiset() == ba.to_multiset()
            &&& remove_project_spec(ab, a) == remove_project_spec(ba, a)
            &&& remove_project_spec(ab, a) == remove_project_spec(projects, a).push(b)
        }),
{
    let pred = keeps_pred(a);
    let ab = add_project_spec(add_project_spec(projects, a), b);
    let ba = add_project_spec(add_project_spec(projects, b), a);
    assert(ab[projects.len() as int] == a);
    assert(ab[projects.len() as int + 1] == b);
    assert(ba[projects.len() as int] == b);
    assert(ba[projects.len() as int + 1] == a);
    projects.push(a).to_multiset_ensures();
    projects.push(b).to_multiset_ensures();
    projects.to_multiset_ensures();
    assert(ab.to_multiset() =~= projects.to_multiset().insert(a).insert(b));
    assert(ba.to_multiset() =~= projects.to_multiset().insert(b).insert(a));
    assert(projects.to_multiset().insert(a).insert(b) =~= projects.to_multiset().insert(
        b,
    ).insert(a));
    reveal(Seq::filter);
    assert(!pred(a));
    assert(pred(b));
    assert(ab.drop_last() =~= projects.push(a));
    assert(projects.push(a).drop_last() =~= projects);
    assert(projects.push(a).filter(pred) == projects.filter(pred));
    assert(ab.filter(pred) == projects.push(a).filter(pred).push(b));
    assert(ab.filter(pred) == projects.filter(pred).push(b));
    assert(ba.drop_last() =~= projects.push(b));
    assert(projects.push(b).drop_last() =~= projects);
    assert(projects.push(b).filter(pred) == projects.filter(pred).push(b));
    assert(ba.filter(pred) == projects.filter(pred).push(b));
}

} // verus!
