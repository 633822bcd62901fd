//! Dispatcher: answers a request from the route table and file cache, and
//! counts the response's status.
use vstd::prelude::*;
use vstd::string::StringExecFns;

use crate::buf::Buf;
use crate::headers::HeaderList;
use crate::route::{Content, ContentView, RouteView};
use crate::router::{
    cache_lookup, lemma_cached_route_has_bytes, lemma_route_index, route_lookup, url_configured,
    Router,
};
use crate::stats::{add_count, count_of, total, StatShard};

verus! {

/// The body of a response.
#[derive(Debug)]
pub enum ResponseBody {
    /// No body.
    Empty,
    /// This text.
    Text(String),
    /// These bytes, shared with the file cache.
    Bytes(Buf),
    /// The contents of the file at this path, read when the response is sent.
    File(String),
}

/// A response body, as values.
pub enum BodyView {
    Empty,
    Text(Seq<char>),
    Bytes(Seq<u8>),
    File(Seq<char>),
}

/// A response: status, `Content-Type` if any, further headers and body.
#[derive(Debug)]
pub struct Response {
    pub status_code: u16,
    pub content_type: Option<String>,
    pub headers: HeaderList,
    pub body: ResponseBody,
}

/// A response, as values.
pub struct ResponseView {
    pub status_code: u16,
    pub content_type: Option<Seq<char>>,
    pub headers: Seq<(Seq<char>, Seq<char>)>,
    pub body: BodyView,
}

impl View for Response {
    type V = ResponseView;

    open spec fn view(&self) -> ResponseView {
        ResponseView {
            status_code: self.status_code,
            content_type: match self.content_type {
                Some(s) => Some(s@),
                None => None,
            },
            headers: self.headers@,
            body: match self.body {
                ResponseBody::Empty => BodyView::Empty,
                ResponseBody::Text(s) => BodyView::Text(s@),
                ResponseBody::Bytes(b) => BodyView::Bytes(b@),
                ResponseBody::File(p) => BodyView::File(p@),
            },
        }
    }
}

/// The body that a configured route gives, with `files` the cached files.
pub open spec fn route_body(r: RouteView, files: Map<Seq<char>, Seq<u8>>) -> BodyView {
    match r.body {
        ContentView::Cache => BodyView::Bytes(cache_lookup(files, r.url).unwrap()),
        ContentView::Content(s) => BodyView::Text(s),
        ContentView::File(p) => BodyView::File(p),
    }
}

/// The response to `method` on `path`: the configured route's status, type,
/// headers and body; 405 when the path is configured for other methods
/// only; 404 with no body when the path is not configured at all.
pub open spec fn response_spec(
    routes: Seq<RouteView>,
    files: Map<Seq<char>, Seq<u8>>,
    method: Seq<char>,
    path: Seq<char>,
) -> ResponseView {
    match route_lookup(routes, method, path) {
        Some(r) => ResponseView {
            status_code: r.status_code,
            content_type: Some(r.mime_type.label()),
            headers: r.headers,
            body: route_body(r, files),
        },
        None => if url_configured(routes, path) {
            ResponseView {
                status_code: 405,
                content_type: None,
                headers: seq![],
                body: BodyView::Text("method for this request is not implemented"@),
            }
        } else {
            ResponseView { status_code: 404, content_type: None, headers: seq![], body: BodyView::Empty }
        },
    }
}

impl Router {
    /// Answers `method` on `path` by exact match on method and path.
    pub fn respond(&self, method: &str, path: &str) -> (r: Response)
        requires
            self.wf(),
        ensures
            r@ == response_spec(self.routes(), self.files(), method@, path@),
            r.headers.wf(),
    {
        let table = self.table();
        proof {
            lemma_route_index(self.routes(), method@, path@);
        }
        match table.lookup(method, path) {
            Some(route) => {
                let body = match &route.body {
                    Content::Cache => match self.cache().get(route.url.as_str()) {
                        Some(b) => ResponseBody::Bytes(b),
                        None => {
                            proof {
                                lemma_cached_route_has_bytes(self, method@, path@);
                            }
                            ResponseBody::Empty
                        },
                    },
                    Content::Content(s) => ResponseBody::Text(s.clone()),
                    Content::File(p) => ResponseBody::File(p.clone()),
                };
                Response {
                    status_code: route.status_code,
                    content_type: Some(route.mime_type.to_string()),
                    headers: route.headers.copy(),
                    body,
                }
            },
            None => {
                if table.has_url(path) {
                    Response {
                        status_code: 405,
                        content_type: None,
                        headers: HeaderList::new(),
                        body: ResponseBody::Text(
                            String::from_str("method for this request is not implemented"),
                        ),
                    }
                } else {
                    Response {
                        status_code: 404,
                        content_type: None,
                        headers: HeaderList::new(),
                        body: ResponseBody::Empty,
                    }
                }
            },
        }
    }

    /// Answers `method` on `path` and counts the response's status in the
    /// worker's shard, whatever the outcome.
    pub fn handle(&self, shard: &mut StatShard, method: &str, path: &str) -> (r: Response)
        requires
            self.wf(),
            old(shard).wf(),
            total(old(shard)@) < u64::MAX,
        ensures
            r@ == response_spec(self.routes(), self.files(), method@, path@),
            final(shard).wf(),
            final(shard)@ == add_count(old(shard)@, r.status_code, 1),
            total(final(shard)@) == total(old(shard)@) + 1,
            forall|c: u16|
                #[trigger] count_of(final(shard)@, c) == count_of(old(shard)@, c) + if c
                    == r.status_code {
                    1nat
                } else {
                    0nat
                },
    {
        let r = self.respond(method, path);
        shard.record(r.status_code);
        r
    }
}

/// A request to a path that no route has gets 404 with an empty body, for
/// any method.
pub proof fn lemma_unconfigured_path_not_found(
    routes: Seq<RouteView>,
    files: Map<Seq<char>, Seq<u8>>,
    method: Seq<char>,
    path: Seq<char>,
)
    requires
        !url_configured(routes, path),
    ensures
        response_spec(routes, files, method, path).status_code == 404,
        response_spec(routes, files, method, path).body == BodyView::Empty,
{
    lemma_route_index(routes, method, path);
}

/// A request to a configured path with a method that has no route there
/// gets 405, however many other methods the path has.
pub proof fn lemma_wrong_method_not_allowed(
    routes: Seq<RouteView>,
    files: Map<Seq<char>, Seq<u8>>,
    method: Seq<char>,
    path: Seq<char>,
)
    requires
        url_configured(routes, path),
        forall|i: int| 0 <= i < routes.len() && routes[i].url == path ==> routes[i].method != method,
    ensures
        response_spec(routes, files, method, path).status_code == 405,
        response_spec(routes, files, method, path).body == BodyView::Text(
            "method for this request is not implemented"@,
        ),
{
    lemma_route_index(routes, method, path);
}

} // verus!
