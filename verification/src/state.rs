//! The immutable per-process server context.
//!
//! The context is built once at startup and then only read, shared across
//! all concurrent requests. Its filesystem-level half — the site root is the
//! canonicalized path of an existing directory, and the not-found file
//! exists and opens — is the constructor caller's charge, established before
//! the context is built; the lexical half, that the site root is in
//! canonical form, is checked and guaranteed here.

use vstd::prelude::*;
use vstd::string::StrSliceExecFns;

use crate::path::{is_canonical, is_plain_segment, FsPath};
use crate::text::str_eq;

verus! {

/// The contents the not-found file is created with when none exists yet.
pub const DEFAULT_NOT_FOUND_FILE: &'static str = r#"
<!DOCTYPE html>
<html>
    <head>
        <title>Not found</title>
    </head>
    <body>
        Oops! That page wasn't found on this server.
    </body>
</html>
"#;

/// Whether a single component is a plain name.
fn segment_is_plain(s: &str) -> (r: bool)
    ensures
        r == is_plain_segment(s@),
{
    let len: usize = s.unicode_len();
    if len == 0 {
        return false;
    }
    if str_eq(s, ".") || str_eq(s, "..") {
        return false;
    }
    let mut i: usize = 0;
    while i < len
        invariant
            i <= len,
            len == s@.len(),
            s@.len() > 0,
            s@ != "."@,
            s@ != ".."@,
            forall|j: int| 0 <= j < i ==> s@[j] != '/',
        decreases len - i,
    {
        if s.get_char(i) == '/' {
            return false;
        }
        i = i + 1;
    }
    true
}

/// Whether every component of the path is a plain name, so the path is in
/// canonical form.
pub fn path_is_canonical(p: &FsPath) -> (r: bool)
    ensures
        r == is_canonical(p@),
{
    let mut i: usize = 0;
    while i < p.segments.len()
        invariant
            i <= p.segments.len(),
            forall|j: int| 0 <= j < i ==> is_plain_segment(p@[j]),
        decreases p.segments.len() - i,
    {
        let seg: &String = &p.segments[i];
        proof {
            assert(p@[i as int] == seg@);
        }
        if !segment_is_plain(seg.as_str()) {
            return false;
        }
        i = i + 1;
    }
    true
}

/// The context in which every request is handled: server identity, the site
/// root all served files must descend from, and the file answering denied
/// resolutions.
pub struct Context {
    /// The server name sent back in the `Server` header.
    pub name: String,
    /// The server version sent back in the `Server` header.
    pub version: String,
    /// The canonical site root below which all served files live.
    pub site: FsPath,
    /// The file streamed back whenever a resolution is denied.
    pub not_found_file: FsPath,
}

impl Context {
    /// A well-formed context holds its site root in canonical form: the
    /// containment of every allowed resolution is judged against exactly
    /// these components.
    pub open spec fn wf(&self) -> bool {
        is_canonical(self.site@)
    }

    /// Builds the context, refusing a site root that is not in canonical
    /// form — a root with `.`, `..` or empty components would make the
    /// containment check meaningless.
    pub fn new(name: String, version: String, site: FsPath, not_found_file: FsPath) -> (r: Option<
        Context,
    >)
        ensures
            match r {
                Option::Some(c) => is_canonical(site@) && c.wf() && c.name == name && c.version
                    == version && c.site == site && c.not_found_file == not_found_file,
                Option::None => !is_canonical(site@),
            },
    {
        if path_is_canonical(&site) {
            Option::Some(Context { name, version, site, not_found_file })
        } else {
            Option::None
        }
    }
}

} // verus!
