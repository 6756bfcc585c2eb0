//! Content-type selection.
//!
//! The content type of a served file is decided purely by the extension of
//! its file name, through a small fixed table: `html`, `js` and `css` map to
//! their text types, and everything else — an unknown extension or none at
//! all — falls back to `text/plain`. There is no content sniffing.

use vstd::prelude::*;
use vstd::string::StrSliceExecFns;

use crate::path::FsPath;
use crate::text::str_eq;

verus! {

/// The position of the last `.` in a file name, if there is one.
pub open spec fn last_dot(name: Seq<char>) -> Option<int>
    decreases name.len(),
{
    if name.len() == 0 {
        Option::None
    } else if name[name.len() - 1] == '.' {
        Option::Some(name.len() - 1)
    } else {
        last_dot(name.drop_last())
    }
}

/// The extension of a file name: what follows the last `.`, unless the only
/// `.` is the leading one — a name that merely starts with a dot has no
/// extension.
pub open spec fn ext_of(name: Seq<char>) -> Option<Seq<char>> {
    match last_dot(name) {
        Option::Some(j) => if j > 0 {
            Option::Some(name.subrange(j + 1, name.len() as int))
        } else {
            Option::None
        },
        Option::None => Option::None,
    }
}

/// The content type for a file name, decided by its extension alone.
pub open spec fn mime_of(name: Seq<char>) -> Seq<char> {
    match ext_of(name) {
        Option::Some(e) => if e == "html"@ {
            "text/html"@
        } else if e == "js"@ {
            "text/javascript"@
        } else if e == "css"@ {
            "text/css"@
        } else {
            "text/plain"@
        },
        Option::None => "text/plain"@,
    }
}

/// The content type for the file a path names: that of its last component,
/// or the fallback if the path has no components.
pub open spec fn mime_of_path(p: Seq<Seq<char>>) -> Seq<char> {
    if p.len() == 0 {
        "text/plain"@
    } else {
        mime_of(p.last())
    }
}

proof fn lemma_last_dot_found(name: Seq<char>, j: int)
    requires
        0 <= j < name.len(),
        name[j] == '.',
        forall|k: int| j < k < name.len() ==> name[k] != '.',
    ensures
        last_dot(name) == Option::Some(j),
    decreases name.len(),
{
    if j < name.len() - 1 {
        lemma_last_dot_found(name.drop_last(), j);
    }
}

proof fn lemma_last_dot_absent(name: Seq<char>)
    requires
        forall|k: int| 0 <= k < name.len() ==> name[k] != '.',
    ensures
        last_dot(name) is None,
    decreases name.len(),
{
    if name.len() > 0 {
        lemma_last_dot_absent(name.drop_last());
    }
}

/// Scans a file name from the end for its last `.`.
fn find_last_dot(name: &str) -> (r: Option<usize>)
    ensures
        match r {
            Option::Some(j) => last_dot(name@) == Option::Some(j as int) && j < name@.len(),
            Option::None => last_dot(name@) is None,
        },
{
    let len: usize = name.unicode_len();
    let mut i: usize = len;
    while i > 0
        invariant
            i <= len,
            len == name@.len(),
            forall|k: int| i <= k < len ==> name@[k] != '.',
        decreases i,
    {
        i = i - 1;
        if name.get_char(i) == '.' {
            proof {
                lemma_last_dot_found(name@, i as int);
            }
            return Option::Some(i);
        }
    }
    proof {
        lemma_last_dot_absent(name@);
    }
    Option::None
}

/// The extension of a file name, if it has one.
pub fn extension_of<'a>(name: &'a str) -> (r: Option<&'a str>)
    ensures
        match r {
            Option::Some(e) => ext_of(name@) == Option::Some(e@),
            Option::None => ext_of(name@) is None,
        },
{
    match find_last_dot(name) {
        Option::Some(j) => {
            if j > 0 {
                let len: usize = name.unicode_len();
                Option::Some(name.substring_char(j + 1, len))
            } else {
                Option::None
            }
        },
        Option::None => Option::None,
    }
}

/// The content type for a file name.
pub fn content_type_for_name(name: &str) -> (r: &'static str)
    ensures
        r@ == mime_of(name@),
{
    match extension_of(name) {
        Option::Some(e) => {
            if str_eq(e, "html") {
                "text/html"
            } else if str_eq(e, "js") {
                "text/javascript"
            } else if str_eq(e, "css") {
                "text/css"
            } else {
                "text/plain"
            }
        },
        Option::None => "text/plain",
    }
}

/// The content type for the file a path names.
pub fn content_type_of(p: &FsPath) -> (r: &'static str)
    ensures
        r@ == mime_of_path(p@),
{
    if p.segments.len() == 0 {
        "text/plain"
    } else {
        let name: &String = &p.segments[p.segments.len() - 1];
        proof {
            assert(p@.last() == name@);
        }
        content_type_for_name(name.as_str())
    }
}

} // verus!
