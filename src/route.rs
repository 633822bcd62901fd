//! A route's response definition.
use vstd::prelude::*;
use std::str::FromStr;

use crate::error::{Error, ErrorKind};
use crate::headers::{
    header_insert, header_name_of, header_remove, header_value_valid, name_index, HeaderList,
};
use crate::mime::MimeType;

verus! {

/// Whether a character may stand in an HTTP method token: a letter, a digit,
/// or one of `! * + - . ^ _ ` | ~`.
pub open spec fn method_char(c: char) -> bool {
    ||| 'a' <= c <= 'z'
    ||| 'A' <= c <= 'Z'
    ||| '0' <= c <= '9'
    ||| c == '!' || c == '*' || c == '+' || c == '-' || c == '.'
    ||| c == '^' || c == '_' || c == '`' || c == '|' || c == '~'
}

/// Whether a text is accepted as an HTTP method: a non-empty token.
pub open spec fn method_accepts(s: Seq<char>) -> bool {
    s.len() > 0 && forall|i: int| 0 <= i < s.len() ==> method_char(#[trigger] s[i])
}

/// Relies on `hyper::Method::from_str`: the standard methods and any other
/// non-empty text whose every byte is in its table of token characters.
#[verifier::external_body]
pub(crate) fn method_accepted(s: &str) -> (r: bool)
    ensures
        r == method_accepts(s@),
{
    hyper::Method::from_str(s).is_ok()
}

/// Whether a number is an HTTP status code.
pub open spec fn status_valid(code: u16) -> bool {
    100 <= code < 1000
}

/// Relies on `hyper::StatusCode::from_u16`: it accepts exactly 100 to 999.
#[verifier::external_body]
fn status_code_accepted(code: u16) -> (r: bool)
    ensures
        r == status_valid(code),
{
    hyper::StatusCode::from_u16(code).is_ok()
}

/// Where a route's body comes from.
#[derive(Debug, Clone)]
pub enum Content {
    /// The bytes stored in the file cache under the route's URL.
    Cache,
    /// This literal text.
    Content(String),
    /// The file at this path, read on every request.
    File(String),
}

/// A body source, as text.
pub enum ContentView {
    Cache,
    Content(Seq<char>),
    File(Seq<char>),
}

impl View for Content {
    type V = ContentView;

    open spec fn view(&self) -> ContentView {
        match self {
            Content::Cache => ContentView::Cache,
            Content::Content(s) => ContentView::Content(s@),
            Content::File(p) => ContentView::File(p@),
        }
    }
}

/// The response that a route gives.
#[derive(Debug, Clone)]
pub struct RouteInfo {
    pub url: String,
    pub method: String,
    pub status_code: u16,
    pub mime_type: MimeType,
    pub headers: HeaderList,
    pub body: Content,
}

/// A route, as values.
pub struct RouteView {
    pub url: Seq<char>,
    pub method: Seq<char>,
    pub status_code: u16,
    pub mime_type: MimeType,
    pub headers: Seq<(Seq<char>, Seq<char>)>,
    pub body: ContentView,
}

impl View for RouteInfo {
    type V = RouteView;

    open spec fn view(&self) -> RouteView {
        RouteView {
            url: self.url@,
            method: self.method@,
            status_code: self.status_code,
            mime_type: self.mime_type,
            headers: self.headers@,
            body: self.body@,
        }
    }
}

impl RouteInfo {
    /// Whether the route's headers are well formed.
    pub open spec fn wf(&self) -> bool {
        self.headers.wf()
    }

    /// A route for `url` and `method` with the given status, an
    /// `application/octet-stream` type, no headers and a cached body. Fails
    /// when the method is not a valid method token, or the status lies
    /// outside 100 to 999.
    pub fn new(url: String, method: String, status_code: u16) -> (r: Result<RouteInfo, Error>)
        ensures
            !method_accepts(method@) ==> r == Err::<RouteInfo, Error>(
                Error { error_type: ErrorKind::UnsupportedMethod },
            ),
            method_accepts(method@) && !status_valid(status_code) ==> r == Err::<RouteInfo, Error>(
                Error { error_type: ErrorKind::InvalidStatusCode },
            ),
            method_accepts(method@) && status_valid(status_code) ==> r.is_ok(),
            r.is_ok() ==> ({
                let ri = r.unwrap();
                &&& ri.wf()
                &&& ri.url@ == url@
                &&& ri.method@ == method@
                &&& ri.status_code == status_code
                &&& ri.mime_type == MimeType::ApplicationOctetStream
                &&& ri.headers@.len() == 0
                &&& ri.body@ == ContentView::Cache
            }),
    {
        if !method_accepted(method.as_str()) {
            return Err(Error::new(ErrorKind::UnsupportedMethod));
        }
        if !status_code_accepted(status_code) {
            return Err(Error::new(ErrorKind::InvalidStatusCode));
        }
        Ok(
            RouteInfo {
                url,
                method,
                status_code,
                mime_type: MimeType::ApplicationOctetStream,
                headers: HeaderList::new(),
                body: Content::Cache,
            },
        )
    }

    /// A `GET` route for `url` with status 200.
    pub fn with_default(url: String) -> (r: Result<RouteInfo, Error>)
        ensures
            r.is_ok(),
            r.is_ok() ==> ({
                let ri = r.unwrap();
                &&& ri.url@ == url@
                &&& ri.method@ == "GET"@
                &&& ri.status_code == 200
            }),
    {
        proof {
            reveal_strlit("GET");
            assert(method_char("GET"@[0]) && method_char("GET"@[1]) && method_char("GET"@[2]));
        }
        RouteInfo::new(url, "GET".to_owned(), 200)
    }

    /// Sets the header `key` to `value`, replacing a header of the same name;
    /// leaves the headers as they were and returns false when `key` is not a
    /// valid header name or `value` not a valid header value.
    pub fn add_header(&mut self, key: String, value: String) -> (r: bool)
        requires
            old(self).wf(),
        ensures
            final(self).wf(),
            r == (header_name_of(key@).is_some() && header_value_valid(value@)),
            r ==> final(self).headers@ == header_insert(
                old(self).headers@,
                header_name_of(key@).unwrap(),
                value@,
            ),
            !r ==> final(self).headers@ == old(self).headers@,
            final(self).url == old(self).url,
            final(self).method == old(self).method,
            final(self).status_code == old(self).status_code,
            final(self).mime_type == old(self).mime_type,
            final(self).body == old(self).body,
    {
        match crate::headers::normalize_header_name(key.as_str()) {
            Some(name) => {
                if crate::headers::header_value_accepted(value.as_str()) {
                    self.headers.insert(name, value);
                    true
                } else {
                    false
                }
            },
            None => false,
        }
    }

    /// Removes the header `key` (matched case-insensitively), returning its
    /// value; none when `key` is not a valid header name or is not set.
    pub fn remove_header(&mut self, key: String) -> (r: Option<String>)
        requires
            old(self).wf(),
        ensures
            final(self).wf(),
            header_name_of(key@).is_none() ==> r.is_none() && final(self).headers@ == old(
                self,
            ).headers@,
            header_name_of(key@).is_some() ==> final(self).headers@ == header_remove(
                old(self).headers@,
                header_name_of(key@).unwrap(),
            ) && (r.is_none() <==> name_index(old(self).headers@, header_name_of(key@).unwrap())
                < 0),
            final(self).url == old(self).url,
            final(self).method == old(self).method,
            final(self).status_code == old(self).status_code,
            final(self).body == old(self).body,
    {
        match crate::headers::normalize_header_name(key.as_str()) {
            Some(name) => self.headers.remove(name.as_str()),
            None => None,
        }
    }
}

} // verus!
