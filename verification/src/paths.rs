//! Path composition. Paths are plain strings; a child is placed under a
//! parent by inserting a single `/` separator, and a file name is composed
//! from a stem and an extension with a single `.` between them.

use vstd::prelude::*;
use vstd::string::StringExecFns;

verus! {

/// The composed path `parent/child`.
pub open spec fn join_path(parent: Seq<char>, child: Seq<char>) -> Seq<char> {
    parent + "/"@ + child
}

/// The composed file name `name.extension`.
pub open spec fn dotted_name(name: Seq<char>, extension: Seq<char>) -> Seq<char> {
    name + "."@ + extension
}

/// A composed path is one separator longer than its two parts together.
pub proof fn lemma_join_path_len(parent: Seq<char>, child: Seq<char>)
    ensures
        join_path(parent, child).len() == parent.len() + 1 + child.len(),
{
    reveal_strlit("/");
}

/// A composed file name is one dot longer than its two parts together.
pub proof fn lemma_dotted_name_len(name: Seq<char>, extension: Seq<char>)
    ensures
        dotted_name(name, extension).len() == name.len() + 1 + extension.len(),
{
    reveal_strlit(".");
}

/// Joins a parent directory and a child name with the path separator.
pub fn join(parent: &str, child: &str) -> (r: String)
    ensures
        r@ == join_path(parent@, child@),
{
    let mut s: String = parent.to_owned();
    s.append("/");
    s.append(child);
    s
}

/// Composes the file name `name.extension`.
pub fn dotted(name: &str, extension: &str) -> (r: String)
    ensures
        r@ == dotted_name(name@, extension@),
{
    let mut s: String = name.to_owned();
    s.append(".");
    s.append(extension);
    s
}

} // verus!
