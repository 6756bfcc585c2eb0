//! Request-path resolution.
//!
//! A request path is joined onto the site root (after stripping any leading
//! root markers, so a request can never name an absolute path of its own),
//! then handed to the filesystem for canonicalization. The decision over the
//! filesystem's answers — did the joined path canonicalize, is the canonical
//! path a directory, does `<dir>/index.html` exist — is made here, and is
//! where containment is enforced: the canonical path must descend from the
//! site root, a check made only *after* canonicalization, since that is what
//! resolves `..` segments and symlink indirection.

use vstd::prelude::*;

use crate::path::{is_prefix_of, FsPath};
use crate::text::str_eq;

verus! {

/// The outcome of resolving a request path against the site root.
pub enum Resolution {
    /// Serve this file.
    Allowed(FsPath),
    /// Escape attempt, missing file, or directory without an index page:
    /// all collapse to the same outcome, so a denial reveals nothing about
    /// the filesystem.
    Denied,
}

impl View for Resolution {
    type V = Option<Seq<Seq<char>>>;

    open spec fn view(&self) -> Option<Seq<Seq<char>>> {
        match self {
            Resolution::Allowed(p) => Option::Some(p@),
            Resolution::Denied => Option::None,
        }
    }
}

/// The canonicalization outcome, seen as the optional component sequence.
pub open spec fn opt_path_view(o: Option<FsPath>) -> Option<Seq<Seq<char>>> {
    match o {
        Option::Some(p) => Option::Some(p@),
        Option::None => Option::None,
    }
}

/// A request's components with leading root markers removed.
pub open spec fn strip_root(req: Seq<Seq<char>>) -> Seq<Seq<char>>
    decreases req.len(),
{
    if req.len() > 0 && req[0] == "/"@ {
        strip_root(req.drop_first())
    } else {
        req
    }
}

/// The path a request names below the site root, before the filesystem is
/// consulted: the root's components followed by the request's, any leading
/// root markers stripped.
pub open spec fn spec_joined(root: Seq<Seq<char>>, req: Seq<Seq<char>>) -> Seq<Seq<char>> {
    root + strip_root(req)
}

proof fn lemma_strip_root_skip(req: Seq<Seq<char>>, j: int)
    requires
        0 <= j <= req.len(),
        forall|i: int| 0 <= i < j ==> req[i] == "/"@,
        j < req.len() ==> req[j] != "/"@,
    ensures
        strip_root(req) == req.subrange(j, req.len() as int),
    decreases j,
{
    if j == 0 {
        assert(req.subrange(0, req.len() as int) =~= req);
    } else {
        lemma_strip_root_skip(req.drop_first(), j - 1);
        assert(req.drop_first().subrange(j - 1, req.drop_first().len() as int) =~= req.subrange(
            j,
            req.len() as int,
        ));
    }
}

/// How many leading components of the request are root markers.
fn count_leading_root(request: &Vec<String>) -> (j: usize)
    ensures
        j <= request.deep_view().len(),
        forall|i: int| 0 <= i < j ==> request.deep_view()[i] == "/"@,
        j < request.deep_view().len() ==> request.deep_view()[j as int] != "/"@,
{
    let mut j: usize = 0;
    while j < request.len()
        invariant
            j <= request.len(),
            forall|i: int| 0 <= i < j ==> request.deep_view()[i] == "/"@,
        decreases request.len() - j,
    {
        let s: &String = &request[j];
        if !str_eq(s.as_str(), "/") {
            proof {
                assert(request.deep_view()[j as int] == s@);
            }
            return j;
        }
        j = j + 1;
    }
    j
}

/// Joins a request's components onto the site root, stripping any leading
/// root markers so the request cannot override the root.
pub fn joined_path(root: &FsPath, request: &Vec<String>) -> (r: FsPath)
    ensures
        r@ == spec_joined(root@, request.deep_view()),
{
    let mut out: FsPath = root.clone();
    let start: usize = count_leading_root(request);
    proof {
        lemma_strip_root_skip(request.deep_view(), start as int);
        assert(out@ =~~= root@ + request.deep_view().subrange(start as int, start as int));
    }
    let mut j: usize = start;
    while j < request.len()
        invariant
            start <= j <= request.len(),
            out@ == root@ + request.deep_view().subrange(start as int, j as int),
            strip_root(request.deep_view()) == request.deep_view().subrange(
                start as int,
                request.deep_view().len() as int,
            ),
        decreases request.len() - j,
    {
        let ghost before: Seq<Seq<char>> = out@;
        let s: &String = &request[j];
        out.segments.push(s.clone());
        j = j + 1;
        proof {
            let req: Seq<Seq<char>> = request.deep_view();
            assert(s@ == req[j - 1]);
            assert(out@.len() == before.len() + 1);
            assert forall|k: int| 0 <= k < out@.len() implies out@[k] == (root@ + req.subrange(
                start as int,
                j as int,
            ))[k] by {
                if k < before.len() {
                    assert(out@[k] == out.segments@[k]@);
                    assert(out.segments@[k] == out.segments@.subrange(0, before.len() as int)[k]);
                    assert(out@[k] == before[k]);
                } else {
                    assert(out@[k] == s@);
                }
            }
            assert(out@ =~~= root@ + req.subrange(start as int, j as int));
        }
    }
    proof {
        assert(out@ =~= spec_joined(root@, request.deep_view()));
    }
    out
}

/// The resolution decision, over the answers the filesystem gave for the
/// joined path: `canon` is the canonicalization outcome, `canon_is_dir`
/// whether the canonical path is a directory, and `index_exists` whether
/// `<canonical>/index.html` exists. `Some(p)` means serve `p`; `None` means
/// the request is denied.
pub open spec fn spec_resolve(
    root: Seq<Seq<char>>,
    canon: Option<Seq<Seq<char>>>,
    canon_is_dir: bool,
    index_exists: bool,
) -> Option<Seq<Seq<char>>> {
    match canon {
        Option::None => Option::None,
        Option::Some(c) => if !is_prefix_of(root, c) {
            Option::None
        } else if !canon_is_dir {
            Option::Some(c)
        } else if index_exists {
            Option::Some(c.push("index.html"@))
        } else {
            Option::None
        },
    }
}

/// Decides a request's resolution from the filesystem's answers.
pub fn resolve(root: &FsPath, canon: Option<FsPath>, canon_is_dir: bool, index_exists: bool) -> (r:
    Resolution)
    ensures
        r@ == spec_resolve(root@, opt_path_view(canon), canon_is_dir, index_exists),
{
    match canon {
        Option::None => Resolution::Denied,
        Option::Some(c) => {
            if !c.starts_with(root) {
                Resolution::Denied
            } else if !canon_is_dir {
                Resolution::Allowed(c)
            } else if index_exists {
                let ghost c0: Seq<Seq<char>> = c@;
                let mut target: FsPath = c;
                target.segments.push("index.html".to_owned());
                proof {
                    assert(target@ =~~= c0.push("index.html"@));
                }
                Resolution::Allowed(target)
            } else {
                Resolution::Denied
            }
        },
    }
}

/// Containment: whatever the filesystem answered — whether or not the
/// canonicalization succeeded, and whatever path, directory test and index
/// test it produced, including a canonical path that a symlink inside the
/// root made point elsewhere — a resolution that allows a path allows only
/// one whose components descend from the site root.
pub proof fn lemma_resolution_contained(
    root: Seq<Seq<char>>,
    canon: Option<Seq<Seq<char>>>,
    canon_is_dir: bool,
    index_exists: bool,
)
    ensures
        spec_resolve(root, canon, canon_is_dir, index_exists) matches Option::Some(p)
            ==> is_prefix_of(root, p),
{
    match canon {
        Option::Some(c) => {
            if is_prefix_of(root, c) && canon_is_dir && index_exists {
                assert forall|i: int| 0 <= i < root.len() implies root[i] == c.push(
                    "index.html"@,
                )[i] by {}
            }
        },
        Option::None => {},
    }
}

/// Idempotence: resolution is a pure decision, so resolving the same request
/// again, with the site root and the filesystem's answers unchanged, yields
/// the same outcome.
pub proof fn lemma_resolution_idempotent(
    root1: Seq<Seq<char>>,
    canon1: Option<Seq<Seq<char>>>,
    canon_is_dir1: bool,
    index_exists1: bool,
    root2: Seq<Seq<char>>,
    canon2: Option<Seq<Seq<char>>>,
    canon_is_dir2: bool,
    index_exists2: bool,
)
    requires
        root1 == root2,
        canon1 == canon2,
        canon_is_dir1 == canon_is_dir2,
        index_exists1 == index_exists2,
    ensures
        spec_resolve(root1, canon1, canon_is_dir1, index_exists1) == spec_resolve(
            root2,
            canon2,
            canon_is_dir2,
            index_exists2,
        ),
{
}

/// Directory fallback: a contained directory with an index page resolves to
/// `<dir>/index.html`; the same directory without one is denied.
pub proof fn lemma_directory_fallback(root: Seq<Seq<char>>, dir: Seq<Seq<char>>)
    requires
        is_prefix_of(root, dir),
    ensures
        spec_resolve(root, Option::Some(dir), true, true) == Option::Some(
            dir.push("index.html"@),
        ),
        spec_resolve(root, Option::Some(dir), true, false) is None,
{
}

/// Root default: the empty request and the bare root request `/` name the
/// same joined path — the site root itself — so, the filesystem unchanged,
/// they resolve identically.
pub proof fn lemma_root_default(root: Seq<Seq<char>>)
    ensures
        spec_joined(root, Seq::<Seq<char>>::empty()) == root,
        spec_joined(root, seq!["/"@]) == root,
{
    let bare: Seq<Seq<char>> = seq!["/"@];
    assert(bare.drop_first() =~= Seq::<Seq<char>>::empty());
    assert(root + Seq::<Seq<char>>::empty() =~= root);
}

} // verus!
