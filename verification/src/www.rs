//! The request handler's decision.
//!
//! The handler composes the path resolver and the file responder: an allowed
//! resolution is served with status 200, a denied one is answered with
//! status 404 and the context's not-found file — passed through as it is,
//! never re-resolved, since it was validated when the context was built.

use vstd::prelude::*;

use crate::path::FsPath;
use crate::resolve::{opt_path_view, resolve, spec_resolve, Resolution};
use crate::state::Context;

verus! {

/// The status code of a response serving an allowed resolution.
pub const STATUS_OK: u16 = 200;

/// The status code of a response answering a denied resolution.
pub const STATUS_NOT_FOUND: u16 = 404;

/// Chooses the status code and the file to stream, from the filesystem's
/// answers for the joined request path: 200 and the resolved file when the
/// resolution allows one, else 404 and the context's not-found file.
pub fn choose_response(
    ctx: &Context,
    canon: Option<FsPath>,
    canon_is_dir: bool,
    index_exists: bool,
) -> (r: (u16, FsPath))
    ensures
        match spec_resolve(ctx.site@, opt_path_view(canon), canon_is_dir, index_exists) {
            Option::Some(p) => r.0 == STATUS_OK && r.1@ == p,
            Option::None => r.0 == STATUS_NOT_FOUND && r.1@ == ctx.not_found_file@,
        },
{
    match resolve(&ctx.site, canon, canon_is_dir, index_exists) {
        Resolution::Allowed(p) => (STATUS_OK, p),
        Resolution::Denied => (STATUS_NOT_FOUND, ctx.not_found_file.clone()),
    }
}

} // verus!
