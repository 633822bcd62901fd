//! File resolution policy: how a route's `file` field becomes its type, body
//! and status, given what the filesystem said about the file.
use vstd::prelude::*;
use vstd::string::StringExecFns;

use crate::buf::Buf;
use crate::mime::{resolve_spec, MimeType};
use crate::route::{Content, ContentView};
use crate::text::{extension_of, file_extension};

verus! {

/// Text files of at most this many bytes are read once and served from memory.
pub const MAX_FILE_CACHE_LENGTH: u64 = 512 * 1024;

/// What the filesystem said about a route's file.
#[derive(Debug)]
pub struct FileFacts {
    /// Whether the path names a readable regular file.
    pub is_file: bool,
    /// The file's length from its metadata, or the error's text.
    pub size: Result<u64, String>,
    /// The file's bytes, or the error's text, when they were read.
    pub contents: Option<Result<Vec<u8>, String>>,
}

/// A route's resolved content type, body and status; `cached` holds the bytes
/// to store in the file cache exactly when the body is `Cache`.
#[derive(Debug)]
pub struct Resolution {
    pub mime_type: MimeType,
    pub body: Content,
    pub status_code: u16,
    pub cached: Option<Buf>,
}

/// A resolution, as values.
pub struct ResolutionView {
    pub mime_type: MimeType,
    pub body: ContentView,
    pub status_code: u16,
    pub cached: Option<Seq<u8>>,
}

impl Resolution {
    /// The bytes to cache are present exactly when the body is `Cache`.
    pub open spec fn wf(&self) -> bool {
        (self.body@ == ContentView::Cache) <==> self.cached.is_some()
    }
}

impl View for Resolution {
    type V = ResolutionView;

    open spec fn view(&self) -> ResolutionView {
        ResolutionView {
            mime_type: self.mime_type,
            body: self.body@,
            status_code: self.status_code,
            cached: match self.cached {
                Some(b) => Some(b@),
                None => None,
            },
        }
    }
}

/// The inline plain-text response with status `code`.
pub open spec fn inline_text(text: Seq<char>, code: u16) -> ResolutionView {
    ResolutionView {
        mime_type: MimeType::TextPlain,
        body: ContentView::Content(text),
        status_code: code,
        cached: None,
    }
}

/// A body streamed from `path` on every request, with status 200.
pub open spec fn from_disk(mime: MimeType, path: Seq<char>) -> ResolutionView {
    ResolutionView { mime_type: mime, body: ContentView::File(path), status_code: 200, cached: None }
}

/// Whether the file at `path` is a text file whose bytes must be read to
/// resolve it: it is a file, its extension names a text type, and its
/// length is known and at most `MAX_FILE_CACHE_LENGTH`.
pub open spec fn wants_contents(path: Seq<char>, is_file: bool, size: Result<u64, String>) -> bool {
    &&& is_file
    &&& extension_of(path).is_some()
    &&& resolve_spec(extension_of(path).unwrap()).is_text_spec()
    &&& size.is_ok()
    &&& size.unwrap() <= MAX_FILE_CACHE_LENGTH
}

/// How a route whose `file` field is `path` (none when it has no such field)
/// resolves, given the facts about that file.
pub open spec fn resolution_spec(path: Option<Seq<char>>, facts: FileFacts) -> ResolutionView {
    match path {
        None => inline_text("not found file path field"@, 404),
        Some(p) => if !facts.is_file {
            inline_text("not a file: "@ + p, 500)
        } else {
            match extension_of(p) {
                None => from_disk(MimeType::ApplicationOctetStream, p),
                Some(ext) => {
                    let mime = resolve_spec(ext);
                    if !mime.is_text_spec() {
                        from_disk(MimeType::ApplicationOctetStream, p)
                    } else {
                        match facts.size {
                            Err(e) => inline_text(
                                "get file metadata failed: "@ + p + " => "@ + e@,
                                500,
                            ),
                            Ok(n) => if n > MAX_FILE_CACHE_LENGTH {
                                from_disk(mime, p)
                            } else {
                                match facts.contents {
                                    Some(Ok(bytes)) => ResolutionView {
                                        mime_type: mime,
                                        body: ContentView::Cache,
                                        status_code: 200,
                                        cached: Some(bytes@),
                                    },
                                    Some(Err(e)) => inline_text(
                                        "read file failed: "@ + p + " => "@ + e@,
                                        500,
                                    ),
                                    None => inline_text(
                                        "read file failed: "@ + p + " => "@
                                            + "contents were not read"@,
                                        500,
                                    ),
                                }
                            },
                        }
                    }
                },
            }
        },
    }
}

/// The text `a` followed by `b`.
fn joined(a: &str, b: &str) -> (r: String)
    ensures
        r@ == a@ + b@,
{
    let mut s = String::from_str(a);
    s.append(b);
    s
}

/// The text `head` followed by `path`, `" => "` and `detail`.
fn diagnostic(head: &str, path: &str, detail: &str) -> (r: String)
    ensures
        r@ == head@ + path@ + " => "@ + detail@,
{
    let mut s = joined(head, path);
    s.append(" => ");
    s.append(detail);
    s
}

/// Whether the file at `path` must be read before it can be resolved: it is
/// a file, of a text type, whose known length is at most the cache threshold.
pub fn needs_contents(path: &str, is_file: bool, size: &Result<u64, String>) -> (r: bool)
    ensures
        r == wants_contents(path@, is_file, *size),
{
    if !is_file {
        return false;
    }
    match file_extension(path) {
        None => false,
        Some(ext) => {
            let mime = MimeType::resolve(ext.as_str());
            match size {
                Ok(n) => mime.is_text() && *n <= MAX_FILE_CACHE_LENGTH,
                Err(_) => false,
            }
        },
    }
}

/// Resolves a route whose `file` field is `path` (none when it has no such
/// field): no field gives 404 with an explanation; a path that names no
/// readable file gives 500; a file without extension or of a non-text type is
/// streamed as `application/octet-stream`; a text file is cached when it is
/// at most `MAX_FILE_CACHE_LENGTH` bytes and streamed otherwise; a metadata or
/// read failure gives 500 with its text.
pub fn resolve_file(path: Option<&str>, facts: &FileFacts) -> (r: Resolution)
    ensures
        r.wf(),
        r@ == resolution_spec(
            match path {
                Some(p) => Some(p@),
                None => None,
            },
            *facts,
        ),
{
    let p = match path {
        None => {
            return Resolution {
                mime_type: MimeType::TextPlain,
                body: Content::Content(String::from_str("not found file path field")),
                status_code: 404,
                cached: None,
            };
        },
        Some(p) => p,
    };
    if !facts.is_file {
        return Resolution {
            mime_type: MimeType::TextPlain,
            body: Content::Content(joined("not a file: ", p)),
            status_code: 500,
            cached: None,
        };
    }
    let ext = match file_extension(p) {
        None => {
            return Resolution {
                mime_type: MimeType::ApplicationOctetStream,
                body: Content::File(p.to_owned()),
                status_code: 200,
                cached: None,
            };
        },
        Some(e) => e,
    };
    let mime = MimeType::resolve(ext.as_str());
    if !mime.is_text() {
        return Resolution {
            mime_type: MimeType::ApplicationOctetStream,
            body: Content::File(p.to_owned()),
            status_code: 200,
            cached: None,
        };
    }
    let n = match &facts.size {
        Err(e) => {
            return Resolution {
                mime_type: MimeType::TextPlain,
                body: Content::Content(diagnostic("get file metadata failed: ", p, e.as_str())),
                status_code: 500,
                cached: None,
            };
        },
        Ok(n) => *n,
    };
    if n > MAX_FILE_CACHE_LENGTH {
        return Resolution {
            mime_type: mime,
            body: Content::File(p.to_owned()),
            status_code: 200,
            cached: None,
        };
    }
    match &facts.contents {
        Some(Ok(bytes)) => Resolution {
            mime_type: mime,
            body: Content::Cache,
            status_code: 200,
            cached: Some(Buf::from_bytes(bytes.clone())),
        },
        Some(Err(e)) => Resolution {
            mime_type: MimeType::TextPlain,
            body: Content::Content(diagnostic("read file failed: ", p, e.as_str())),
            status_code: 500,
            cached: None,
        },
        None => Resolution {
            mime_type: MimeType::TextPlain,
            body: Content::Content(diagnostic("read file failed: ", p, "contents were not read")),
            status_code: 500,
            cached: None,
        },
    }
}

} // verus!
