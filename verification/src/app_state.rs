//! Application State: the process-wide registry of known project names,
//! the current working directory, and whether the user's context is
//! inside a project.
//!
//! The registry is plain data: nothing here checks that a name matches an
//! on-disk project, the filesystem stays authoritative. The unverified
//! shell wraps each field in its own lock, so no cross-field atomicity is
//! promised; these operations each touch the fields they name and no
//! other.

use vstd::prelude::*;

verus! {

/// The project list after adding `name`: appended at the end.
pub open spec fn add_project_spec(projects: Seq<Seq<char>>, name: Seq<char>) -> Seq<Seq<char>> {
    projects.push(name)
}

/// The predicate that keeps a project entry when removing `name`.
pub open spec fn keeps_pred(name: Seq<char>) -> spec_fn(Seq<char>) -> bool {
    |p: Seq<char>| p != name
}

/// The project list after removing `name`: every entry equal to `name`
/// is removed, not just the first, and the order of the rest is kept.
pub open spec fn remove_project_spec(projects: Seq<Seq<char>>, name: Seq<char>) -> Seq<
    Seq<char>,
> {
    projects.filter(keeps_pred(name))
}

/// The shared registry handed to every command invocation.
pub struct AppState {
    /// Names of the known projects, in insertion order.
    pub projects: Vec<String>,
    /// The active working directory.
    pub current_directory: String,
    /// Whether the current context is inside a project.
    pub within_project: bool,
}

impl AppState {
    /// The project list as a sequence of character sequences.
    pub open spec fn projects_view(&self) -> Seq<Seq<char>> {
        self.projects.deep_view()
    }

    /// A registry with no projects, an empty working directory, and the
    /// context outside any project.
    pub fn new() -> (r: Self)
        ensures
            r.projects_view() == Seq::<Seq<char>>::empty(),
            r.current_directory@ == Seq::<char>::empty(),
            r.within_project == false,
    {
        let r = AppState {
            projects: Vec::new(),
            current_directory: String::new(),
            within_project: false,
        };
        proof {
            assert(r.projects_view() =~= Seq::<Seq<char>>::empty());
        }
        r
    }

    /// Appends a project name to the registry; the other fields are
    /// untouched.
    pub fn add_project(&mut self, new_project: String)
        ensures
            final(self).projects_view() == add_project_spec(
                old(self).projects_view(),
                new_project@,
            ),
            final(self).current_directory == old(self).current_directory,
            final(self).within_project == old(self).within_project,
    {
        self.projects.push(new_project);
        proof {
            assert(self.projects_view() =~= old(self).projects_view().push(new_project@));
        }
    }

    /// Removes every entry equal to `project_name` from the registry; the
    /// other fields are untouched.
    pub fn remove_project(&mut self, project_name: String)
        ensures
            final(self).projects_view() == remove_project_spec(
                old(self).projects_view(),
                project_name@,
            ),
            final(self).current_directory == old(self).current_directory,
            final(self).within_project == old(self).within_project,
    {
        let ghost orig: Seq<Seq<char>> = self.projects.deep_view();
        let ghost pred = keeps_pred(project_name@);
        let mut kept: Vec<String> = Vec::new();
        let n = self.projects.len();
        let mut i: usize = 0;
        proof {
            assert(orig.subrange(0, 0).len() == 0);
            reveal(Seq::filter);
            assert(kept.deep_view() =~= orig.subrange(0, 0).filter(pred));
        }
        while i < n
            invariant
                i <= n,
                n == self.projects.len(),
                pred == keeps_pred(project_name@),
                self.projects.deep_view() == orig,
                kept.deep_view() == orig.subrange(0, i as int).filter(pred),
            decreases n - i,
        {
            let p: &String = &self.projects[i];
            proof {
                assert(orig[i as int] == self.projects@[i as int]@);
            }
            let keep_it = !(*p == project_name);
            if keep_it {
                let ghost prev = kept.deep_view();
                kept.push(p.clone());
                proof {
                    assert(kept.deep_view() =~= prev.push(orig[i as int]));
                }
            }
            proof {
                let t = orig.subrange(0, i as int + 1);
                assert(t.drop_last() =~= orig.subrange(0, i as int));
                assert(t.last() == orig[i as int]);
                assert(pred(orig[i as int]) == (orig[i as int] != project_name@));
                assert(keep_it == pred(orig[i as int]));
                reveal(Seq::filter);
                assert(t.filter(pred) == if pred(t.last()) {
                    t.drop_last().filter(pred).push(t.last())
                } else {
                    t.drop_last().filter(pred)
                });
                assert(kept.deep_view() == t.filter(pred));
            }
            i = i + 1;
        }
        proof {
            assert(orig.subrange(0, n as int) =~= orig);
        }
        self.projects = kept;
    }

    /// Replaces the shared current-directory value wholesale; the other
    /// fields are untouched.
    pub fn update_current_directory(&mut self, new_directory: String)
        ensures
            final(self).current_directory@ == new_directory@,
            final(self).projects == old(self).projects,
            final(self).within_project == old(self).within_project,
    {
        self.current_directory = new_directory;
    }
}

} // verus!
