//! Response shaping.
//!
//! Once a status code and target file are chosen, the response is decided
//! from the outcomes the filesystem gave for that file: opened or not, and
//! its length if its metadata could be read. Success carries the content
//! type (by extension) and the length; any failure degrades in place to a
//! short inline error body without them, keeping the status code the caller
//! had already chosen. The server identity is part of every response,
//! degraded or not.

use vstd::prelude::*;

use crate::media::{content_type_of, mime_of_path};
use crate::path::FsPath;
use crate::state::Context;

verus! {

/// The content headers of a streamed file response.
pub struct ResponseHeaders {
    /// `Content-Type`, chosen from the target file's extension.
    pub content_type: String,
    /// `Content-Length`, the file's size read from its metadata at open time.
    pub content_length: u64,
}

/// How the response body is produced.
pub enum BodyKind {
    /// Stream the opened file's bytes, in file order.
    Stream,
    /// The short inline text reporting an internal failure.
    InlineError,
}

/// A decided response: status code, the server identity, content headers
/// when the file could be opened and measured, and how the body is produced.
pub struct FileResponse {
    /// The status code, exactly as the caller chose it.
    pub status: u16,
    /// `Server`, always sent: the context's name and version.
    pub server: String,
    /// The content headers, present on success only.
    pub headers: Option<ResponseHeaders>,
    /// The body.
    pub body: BodyKind,
}

/// The `Server` header value: `<name>/<version>`.
pub open spec fn server_id(name: Seq<char>, version: Seq<char>) -> Seq<char> {
    name + "/"@ + version
}

/// Relies on `String::push_str`: appends the slice's characters to the
/// string.
#[verifier::external_body]
fn push_str(s: &mut String, t: &str)
    ensures
        final(s)@ == old(s)@ + t@,
{
    s.push_str(t);
}

/// The context's `Server` header value.
pub fn server_header(ctx: &Context) -> (r: String)
    ensures
        r@ == server_id(ctx.name@, ctx.version@),
{
    let mut r: String = ctx.name.clone();
    push_str(&mut r, "/");
    push_str(&mut r, ctx.version.as_str());
    r
}

/// The inline body sent when a response degrades on an internal failure.
pub fn inline_error_text() -> (r: &'static str)
    ensures
        r@ == "Internal server error"@,
{
    "Internal server error"
}

/// Decides the response for a chosen status code and target file, from the
/// filesystem's outcomes: whether the file opened, and its length if its
/// metadata could be read. Content headers and a streamed body come if and
/// only if both succeeded; otherwise the response degrades to the inline
/// error body, with the originally intended status code kept. The server
/// identity is set either way.
pub fn response_parts(
    ctx: &Context,
    status: u16,
    target: &FsPath,
    open_ok: bool,
    length: Option<u64>,
) -> (r: FileResponse)
    ensures
        r.status == status,
        r.server@ == server_id(ctx.name@, ctx.version@),
        r.headers is Some <==> open_ok && length is Some,
        r.body is Stream <==> open_ok && length is Some,
        r.headers matches Option::Some(h) ==> h.content_type@ == mime_of_path(target@)
            && Option::Some(h.content_length) == length,
{
    let server: String = server_header(ctx);
    if !open_ok {
        return FileResponse { status, server, headers: Option::None, body: BodyKind::InlineError };
    }
    match length {
        Option::None => FileResponse {
            status,
            server,
            headers: Option::None,
            body: BodyKind::InlineError,
        },
        Option::Some(n) => {
            let content_type: String = content_type_of(target).to_owned();
            FileResponse {
                status,
                server,
                headers: Option::Some(ResponseHeaders { content_type, content_length: n }),
                body: BodyKind::Stream,
            }
        },
    }
}

} // verus!
