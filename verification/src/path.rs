//! Filesystem paths as component sequences.
//!
//! The server never reasons about raw path strings: a path is its sequence of
//! components, root-first, so `/srv/www/index.html` is the three components
//! `["srv", "www", "index.html"]`. Containment — the security property of the
//! whole server — is a prefix relation on these sequences.

use vstd::prelude::*;

verus! {

/// An absolute filesystem path, modelled as its components in order.
///
/// `FsPath { segments }` with `segments == ["srv", "www"]` stands for the
/// path `/srv/www`. The empty sequence stands for the filesystem root.
pub struct FsPath {
    /// The path's components, root-first.
    pub segments: Vec<String>,
}

impl View for FsPath {
    type V = Seq<Seq<char>>;

    open spec fn view(&self) -> Seq<Seq<char>> {
        self.segments.deep_view()
    }
}

impl Clone for FsPath {
    fn clone(&self) -> (r: Self)
        ensures
            r@ == self@,
    {
        let segments: Vec<String> = self.segments.clone();
        proof {
            assert forall|i: int| 0 <= i < segments.len() implies segments.deep_view()[i]
                == self.segments.deep_view()[i] by {
                assert(cloned::<String>(self.segments[i], segments[i]));
            }
            assert(segments.deep_view() =~~= self.segments.deep_view());
        }
        FsPath { segments }
    }
}

/// A plain path component: nonempty, not a current- or parent-directory
/// marker, and without a separator character inside.
pub open spec fn is_plain_segment(s: Seq<char>) -> bool {
    &&& s.len() > 0
    &&& s != "."@
    &&& s != ".."@
    &&& forall|i: int| 0 <= i < s.len() ==> s[i] != '/'
}

/// A canonical absolute path: every component is a plain name, so the path
/// contains no `.` or `..` indirection left to resolve.
pub open spec fn is_canonical(p: Seq<Seq<char>>) -> bool {
    forall|i: int| 0 <= i < p.len() ==> is_plain_segment(p[i])
}

/// `pre` is a component-wise prefix of `full`: every file below `pre`
/// reached without indirection is reached through these components.
pub open spec fn is_prefix_of(pre: Seq<Seq<char>>, full: Seq<Seq<char>>) -> bool {
    &&& pre.len() <= full.len()
    &&& forall|i: int| 0 <= i < pre.len() ==> pre[i] == full[i]
}

impl FsPath {
    /// Whether `pre` is a component-wise prefix of this path.
    pub fn starts_with(&self, pre: &FsPath) -> (r: bool)
        ensures
            r == is_prefix_of(pre@, self@),
    {
        if pre.segments.len() > self.segments.len() {
            return false;
        }
        let mut i: usize = 0;
        while i < pre.segments.len()
            invariant
                i <= pre.segments.len(),
                pre.segments.len() <= self.segments.len(),
                forall|j: int| 0 <= j < i ==> pre@[j] == self@[j],
            decreases pre.segments.len() - i,
        {
            let a: &String = &pre.segments[i];
            let b: &String = &self.segments[i];
            if !a.eq(b) {
                proof {
                    assert(pre@[i as int] == pre.segments@[i as int]@);
                    assert(self@[i as int] == self.segments@[i as int]@);
                }
                return false;
            }
            i = i + 1;
        }
        true
    }
}

} // verus!
