//! The state accumulated while walking the project tree: which
//! dependencies were seen in use, which files were explored, and which
//! were skipped. Paths arrive already normalized; the first occurrence of
//! a path wins and later duplicates change nothing.

use vstd::prelude::*;

use crate::config::{should_ignore, spec_should_ignore};
use crate::scanner::{content_uses, content_uses_dependency, used_names};
use crate::sets::{
    dedup_names, lemma_dedup_names_membership, lemma_filter_names_membership, merge_names,
    names_contain, unique_names,
};
use crate::text::opt_content;

verus! {

/// The dependencies a TypeScript file's content puts to use: those it
/// references textually, less those the type checker reported as declared
/// but never read.
pub open spec fn ts_used_names(
    content: Seq<char>,
    deps: Seq<Seq<char>>,
    unused_imports: Seq<Seq<char>>,
) -> Seq<Seq<char>> {
    deps.filter(|d: Seq<char>| content_uses(content, d) && !unused_imports.contains(d))
}

/// What the used set becomes after one file is read: unchanged for a
/// TypeScript file (handled later with the type checker's findings) or an
/// unreadable file, otherwise extended by the referenced dependencies.
pub open spec fn used_after_file(
    old_used: Seq<Seq<char>>,
    deps: Seq<Seq<char>>,
    typescript: bool,
    content: Option<Seq<char>>,
) -> Seq<Seq<char>> {
    if typescript {
        old_used
    } else {
        match content {
            Some(c) => dedup_names(old_used + used_names(c, deps)),
            None => old_used,
        }
    }
}

/// The running result of a scan.
pub struct ScanState {
    pub dependencies: Vec<String>,
    pub used: Vec<String>,
    pub explored: Vec<String>,
    pub ignored: Vec<String>,
    pub seen: Vec<String>,
}

impl ScanState {
    /// The used set carries no duplicates.
    pub open spec fn wf(self) -> bool {
        unique_names(self.used.deep_view())
    }

    pub fn new(dependencies: Vec<String>) -> (s: ScanState)
        ensures
            s.dependencies == dependencies,
            s.used.deep_view() == Seq::<Seq<char>>::empty(),
            s.explored.deep_view() == Seq::<Seq<char>>::empty(),
            s.ignored.deep_view() == Seq::<Seq<char>>::empty(),
            s.seen.deep_view() == Seq::<Seq<char>>::empty(),
            s.wf(),
    {
        let s = ScanState {
            dependencies,
            used: Vec::new(),
            explored: Vec::new(),
            ignored: Vec::new(),
            seen: Vec::new(),
        };
        proof {
            assert(s.used.deep_view() =~= Seq::<Seq<char>>::empty());
            assert(s.explored.deep_view() =~= Seq::<Seq<char>>::empty());
            assert(s.ignored.deep_view() =~= Seq::<Seq<char>>::empty());
            assert(s.seen.deep_view() =~= Seq::<Seq<char>>::empty());
        }
        s
    }

    /// Records one discovered file. A path already seen changes nothing.
    /// A new path is marked seen, then either recorded as ignored, or
    /// recorded as explored with the references of its content (read at
    /// once for plain files, deferred for TypeScript files, and skipped
    /// for files whose content could not be read).
    pub fn record_file(&mut self, path: &String, typescript: bool, content: Option<&String>) -> (explored: bool)
        requires
            old(self).wf(),
        ensures
            explored == (!old(self).seen.deep_view().contains(path@) && !spec_should_ignore(
                path@,
            )),
            final(self).wf(),
            final(self).dependencies == old(self).dependencies,
            old(self).seen.deep_view().contains(path@) ==> {
                &&& final(self).seen.deep_view() == old(self).seen.deep_view()
                &&& final(self).used.deep_view() == old(self).used.deep_view()
                &&& final(self).explored.deep_view() == old(self).explored.deep_view()
                &&& final(self).ignored.deep_view() == old(self).ignored.deep_view()
            },
            !old(self).seen.deep_view().contains(path@) ==> {
                &&& final(self).seen.deep_view() == old(self).seen.deep_view().push(path@)
                &&& spec_should_ignore(path@) ==> {
                    &&& final(self).ignored.deep_view() == old(self).ignored.deep_view().push(path@)
                    &&& final(self).explored.deep_view() == old(self).explored.deep_view()
                    &&& final(self).used.deep_view() == old(self).used.deep_view()
                }
                &&& !spec_should_ignore(path@) ==> {
                    &&& final(self).explored.deep_view() == old(self).explored.deep_view().push(
                        path@,
                    )
                    &&& final(self).ignored.deep_view() == old(self).ignored.deep_view()
                    &&& final(self).used.deep_view() == used_after_file(
                        old(self).used.deep_view(),
                        old(self).dependencies.deep_view(),
                        typescript,
                        opt_content(content),
                    )
                }
            },
    {
        if names_contain(&self.seen, path.as_str()) {
            return false;
        }
        let ghost seen_before = self.seen.deep_view();
        self.seen.push(path.clone());
        proof {
            assert(self.seen.deep_view() =~= seen_before.push(path@));
        }
        if should_ignore(path.as_str()) {
            let ghost ignored_before = self.ignored.deep_view();
            self.ignored.push(path.clone());
            proof {
                assert(self.ignored.deep_view() =~= ignored_before.push(path@));
            }
            return false;
        }
        let ghost explored_before = self.explored.deep_view();
        self.explored.push(path.clone());
        proof {
            assert(self.explored.deep_view() =~= explored_before.push(path@));
        }
        if typescript {
            return true;
        }
        match content {
            Some(c) => {
                let found = crate::scanner::find_dependencies_in_content(
                    c.as_str(),
                    &self.dependencies,
                );
                merge_names(&mut self.used, &found);
            },
            None => {},
        }
        true
    }

    /// Records a discovered directory or symbolic link: such an entry is
    /// never explored, but an unseen one under an ignored folder is
    /// recorded as ignored.
    pub fn record_other_entry(&mut self, path: &String)
        requires
            old(self).wf(),
        ensures
            final(self).wf(),
            final(self).dependencies == old(self).dependencies,
            final(self).used.deep_view() == old(self).used.deep_view(),
            final(self).explored.deep_view() == old(self).explored.deep_view(),
            spec_should_ignore(path@) && !old(self).seen.deep_view().contains(path@) ==> {
                &&& final(self).ignored.deep_view() == old(self).ignored.deep_view().push(path@)
                &&& final(self).seen.deep_view() == old(self).seen.deep_view().push(path@)
            },
            !(spec_should_ignore(path@) && !old(self).seen.deep_view().contains(path@)) ==> {
                &&& final(self).ignored.deep_view() == old(self).ignored.deep_view()
                &&& final(self).seen.deep_view() == old(self).seen.deep_view()
            },
    {
        if should_ignore(path.as_str()) && !names_contain(&self.seen, path.as_str()) {
            let ghost ignored_before = self.ignored.deep_view();
            let ghost seen_before = self.seen.deep_view();
            self.ignored.push(path.clone());
            self.seen.push(path.clone());
            proof {
                assert(self.ignored.deep_view() =~= ignored_before.push(path@));
                assert(self.seen.deep_view() =~= seen_before.push(path@));
            }
        }
    }

    /// Merges into the used set the dependencies a TypeScript file's
    /// content references, except those the type checker reported as
    /// statically unused.
    pub fn record_typescript_content(&mut self, content: &String, typescript_unused: &Vec<String>)
        requires
            old(self).wf(),
        ensures
            final(self).wf(),
            final(self).dependencies == old(self).dependencies,
            final(self).explored.deep_view() == old(self).explored.deep_view(),
            final(self).ignored.deep_view() == old(self).ignored.deep_view(),
            final(self).seen.deep_view() == old(self).seen.deep_view(),
            final(self).used.deep_view() == dedup_names(
                old(self).used.deep_view() + ts_used_names(
                    content@,
                    old(self).dependencies.deep_view(),
                    typescript_unused.deep_view(),
                ),
            ),
    {
        let ghost pred = |d: Seq<char>|
            content_uses(content@, d) && !typescript_unused.deep_view().contains(d);
        let n = self.dependencies.len();
        let mut found: Vec<String> = Vec::new();
        let mut i: usize = 0;
        proof {
            reveal_with_fuel(Seq::filter, 1);
            assert(found.deep_view() =~= self.dependencies.deep_view().take(0).filter(pred));
        }
        while i < n
            invariant
                i <= n,
                n == self.dependencies@.len(),
                found.deep_view() == self.dependencies.deep_view().take(i as int).filter(pred),
                pred == (|d: Seq<char>|
                    content_uses(content@, d) && !typescript_unused.deep_view().contains(d)),
            decreases n - i,
        {
            let ghost t = self.dependencies.deep_view();
            proof {
                reveal_with_fuel(Seq::filter, 1);
                assert(t.take(i + 1).drop_last() =~= t.take(i as int));
                assert(t.take(i + 1).last() == t[i as int]);
            }
            let uses = content_uses_dependency(content.as_str(), self.dependencies[i].as_str());
            let reported = names_contain(&typescript_unused, self.dependencies[i].as_str());
            if uses && !reported {
                let ghost before = found.deep_view();
                found.push(self.dependencies[i].clone());
                proof {
                    assert(found.deep_view() =~= before.push(t[i as int]));
                }
            }
            i = i + 1;
        }
        proof {
            assert(self.dependencies.deep_view().take(n as int) =~= self.dependencies.deep_view());
        }
        merge_names(&mut self.used, &found);
    }
}

/// A dependency the type checker reported as statically unused is excluded
/// from what a TypeScript file contributes, and so never enters a used set
/// it was not already in, even though its import is textually present.
pub proof fn lemma_type_checker_excludes(
    content: Seq<char>,
    deps: Seq<Seq<char>>,
    unused_imports: Seq<Seq<char>>,
    used_before: Seq<Seq<char>>,
    d: Seq<char>,
)
    requires
        unused_imports.contains(d),
        !used_before.contains(d),
    ensures
        !ts_used_names(content, deps, unused_imports).contains(d),
        !dedup_names(used_before + ts_used_names(content, deps, unused_imports)).contains(d),
{
    let pred = |x: Seq<char>| content_uses(content, x) && !unused_imports.contains(x);
    lemma_filter_names_membership(deps, pred);
    let merged = used_before + ts_used_names(content, deps, unused_imports);
    lemma_dedup_names_membership(merged);
    if merged.contains(d) {
        let i = choose|i: int| 0 <= i < merged.len() && merged[i] == d;
        if i < used_before.len() {
            assert(used_before[i] == d);
            assert(used_before.contains(d));
        } else {
            assert(ts_used_names(content, deps, unused_imports)[i - used_before.len()] == d);
            assert(ts_used_names(content, deps, unused_imports).contains(d));
        }
    }
}

} // verus!
