//! The route table and the file cache: filled while routes are built, then
//! only read while requests are served.
use vstd::prelude::*;

use crate::buf::Buf;
use crate::cachemap::{cache_map_get, cache_map_insert, cache_map_new, cached_files, CacheMap};
use crate::route::{ContentView, RouteInfo, RouteView};
use crate::text::text_eq;

verus! {

/// Index of the route for `method` and `url`, searching from the end, or -1.
pub open spec fn route_index(s: Seq<RouteView>, method: Seq<char>, url: Seq<char>) -> int
    decreases s.len(),
{
    if s.len() == 0 {
        -1
    } else if s.last().method == method && s.last().url == url {
        s.len() - 1
    } else {
        route_index(s.drop_last(), method, url)
    }
}

/// Whether no two routes share a method and a URL.
pub open spec fn keys_unique(s: Seq<RouteView>) -> bool {
    forall|i: int, j: int|
        0 <= i < j < s.len() ==> !(s[i].method == s[j].method && s[i].url == s[j].url)
}

/// `s` with route `r` set: it replaces the route of the same method and URL,
/// or is appended.
pub open spec fn route_put(s: Seq<RouteView>, r: RouteView) -> Seq<RouteView> {
    let i = route_index(s, r.method, r.url);
    if i >= 0 {
        s.update(i, r)
    } else {
        s.push(r)
    }
}

/// The route for `method` and `url`, if any.
pub open spec fn route_lookup(s: Seq<RouteView>, method: Seq<char>, url: Seq<char>) -> Option<RouteView> {
    let i = route_index(s, method, url);
    if i >= 0 {
        Some(s[i])
    } else {
        None
    }
}

/// Whether some route, of any method, has this URL.
pub open spec fn url_configured(s: Seq<RouteView>, url: Seq<char>) -> bool {
    exists|i: int| 0 <= i < s.len() && s[i].url == url
}

pub proof fn lemma_route_index(s: Seq<RouteView>, method: Seq<char>, url: Seq<char>)
    ensures
        -1 <= route_index(s, method, url) < s.len(),
        route_index(s, method, url) >= 0 ==> s[route_index(s, method, url)].method == method
            && s[route_index(s, method, url)].url == url,
        route_index(s, method, url) == -1 ==> forall|j: int|
            0 <= j < s.len() ==> !(s[j].method == method && s[j].url == url),
    decreases s.len(),
{
    if s.len() > 0 && !(s.last().method == method && s.last().url == url) {
        lemma_route_index(s.drop_last(), method, url);
        if route_index(s, method, url) == -1 {
            assert forall|j: int| 0 <= j < s.len() implies !(s[j].method == method && s[j].url
                == url) by {
                if j < s.len() - 1 {
                    assert(s[j] == s.drop_last()[j]);
                }
            }
        }
    }
}

proof fn lemma_route_index_unique(s: Seq<RouteView>, method: Seq<char>, url: Seq<char>, j: int)
    requires
        keys_unique(s),
        0 <= j < s.len(),
        s[j].method == method,
        s[j].url == url,
    ensures
        route_index(s, method, url) == j,
{
    lemma_route_index(s, method, url);
}

/// After `route_put`, the keys stay unique and a lookup finds the new route
/// under its key and what it found before under any other.
pub proof fn lemma_route_put(s: Seq<RouteView>, r: RouteView, method: Seq<char>, url: Seq<char>)
    requires
        keys_unique(s),
    ensures
        keys_unique(route_put(s, r)),
        route_lookup(route_put(s, r), method, url) == if method == r.method && url == r.url {
            Some(r)
        } else {
            route_lookup(s, method, url)
        },
{
    let t = route_put(s, r);
    lemma_route_index(s, r.method, r.url);
    lemma_route_index(s, method, url);
    lemma_route_index(t, method, url);
    assert(keys_unique(t));
    if method == r.method && url == r.url {
        let i = route_index(s, r.method, r.url);
        let k = if i >= 0 { i } else { s.len() as int };
        lemma_route_index_unique(t, method, url, k);
    } else {
        let i = route_index(s, method, url);
        if i >= 0 {
            lemma_route_index_unique(t, method, url, i);
        } else {
            assert forall|j: int| 0 <= j < t.len() implies !(t[j].method == method && t[j].url
                == url) by {}
            if route_index(t, method, url) >= 0 {
                assert(false);
            }
        }
    }
}

/// The bytes cached under `url`, if any.
pub open spec fn cache_lookup(m: Map<Seq<char>, Seq<u8>>, url: Seq<char>) -> Option<Seq<u8>> {
    if m.contains_key(url) {
        Some(m[url])
    } else {
        None
    }
}

/// `m` with `bytes` stored under `url`, replacing what was stored there.
pub open spec fn cache_put(m: Map<Seq<char>, Seq<u8>>, url: Seq<char>, bytes: Seq<u8>) -> Map<
    Seq<char>,
    Seq<u8>,
> {
    m.insert(url, bytes)
}

/// After `cache_put`, a lookup finds the new bytes under their URL and what
/// it found before under any other.
pub proof fn lemma_cache_put(m: Map<Seq<char>, Seq<u8>>, url: Seq<char>, bytes: Seq<u8>, u: Seq<char>)
    ensures
        cache_lookup(cache_put(m, url, bytes), u) == if u == url {
            Some(bytes)
        } else {
            cache_lookup(m, u)
        },
{
}

/// File contents kept in memory, by URL, in a concurrent map that readers
/// share without copying.
#[derive(Debug)]
pub struct FileCache {
    map: CacheMap,
}

impl View for FileCache {
    type V = Map<Seq<char>, Seq<u8>>;

    closed spec fn view(&self) -> Map<Seq<char>, Seq<u8>> {
        cached_files(self.map)
    }
}

impl FileCache {
    /// An empty cache.
    pub fn new() -> (r: FileCache)
        ensures
            r@ == Map::<Seq<char>, Seq<u8>>::empty(),
    {
        let r = FileCache { map: cache_map_new() };
        assert(r@ =~= Map::<Seq<char>, Seq<u8>>::empty());
        r
    }

    /// Stores `bytes` under `url`, replacing what was stored there.
    pub fn put(&mut self, url: String, bytes: Buf)
        ensures
            final(self)@ == cache_put(old(self)@, url@, bytes@),
    {
        cache_map_insert(&mut self.map, url, bytes);
    }

    /// A shared handle on the bytes stored under `url`, if any.
    pub fn get(&self, url: &str) -> (r: Option<Buf>)
        ensures
            r.is_none() <==> cache_lookup(self@, url@).is_none(),
            r.is_some() ==> r.unwrap()@ == cache_lookup(self@, url@).unwrap(),
    {
        cache_map_get(&self.map, url)
    }
}

/// Routes keyed by method and URL.
#[derive(Debug)]
pub struct RouteTable {
    entries: Vec<RouteInfo>,
}

impl View for RouteTable {
    type V = Seq<RouteView>;

    closed spec fn view(&self) -> Seq<RouteView> {
        self.entries@.map_values(|r: RouteInfo| r@)
    }
}

impl RouteTable {
    /// Keys are unique and every route is well formed.
    pub closed spec fn wf(&self) -> bool {
        &&& keys_unique(self@)
        &&& forall|i: int| 0 <= i < self.entries@.len() ==> (#[trigger] self.entries@[i]).wf()
    }

    /// No routes.
    pub fn new() -> (r: RouteTable)
        ensures
            r.wf(),
            r@ == Seq::<RouteView>::empty(),
    {
        let r = RouteTable { entries: Vec::new() };
        assert(r@ =~= Seq::<RouteView>::empty());
        r
    }

    /// The number of routes.
    pub fn len(&self) -> (r: usize)
        ensures
            r == self@.len(),
    {
        self.entries.len()
    }

    fn find(&self, method: &str, url: &str) -> (r: Option<usize>)
        ensures
            r.is_none() <==> route_index(self@, method@, url@) < 0,
            r.is_some() ==> r.unwrap() == route_index(self@, method@, url@),
    {
        proof {
            lemma_route_index(self@, method@, url@);
        }
        let mut i: usize = self.entries.len();
        assert(self@.take(i as int) =~= self@);
        while i > 0
            invariant
                i <= self@.len(),
                self.entries@.len() == self@.len(),
                route_index(self@, method@, url@) == route_index(self@.take(i as int), method@, url@),
            decreases i,
        {
            assert(self@.take(i as int).drop_last() =~= self@.take(i - 1));
            assert(self@[i - 1] == self.entries@[i - 1]@);
            if text_eq(self.entries[i - 1].method.as_str(), method) && text_eq(
                self.entries[i - 1].url.as_str(),
                url,
            ) {
                return Some(i - 1);
            }
            i = i - 1;
        }
        None
    }

    /// The route for `method` and `url`, if any.
    pub fn lookup(&self, method: &str, url: &str) -> (r: Option<&RouteInfo>)
        requires
            self.wf(),
        ensures
            r.is_none() <==> route_lookup(self@, method@, url@).is_none(),
            r.is_some() ==> r.unwrap()@ == route_lookup(self@, method@, url@).unwrap()
                && r.unwrap().wf(),
    {
        proof {
            lemma_route_index(self@, method@, url@);
        }
        match self.find(method, url) {
            None => None,
            Some(i) => {
                assert(self@[i as int] == self.entries@[i as int]@);
                Some(&self.entries[i])
            },
        }
    }

    /// Whether some route, of any method, has this URL.
    pub fn has_url(&self, url: &str) -> (r: bool)
        ensures
            r == url_configured(self@, url@),
    {
        let mut i: usize = 0;
        while i < self.entries.len()
            invariant
                i <= self.entries@.len(),
                self.entries@.len() == self@.len(),
                forall|j: int| 0 <= j < i ==> self@[j].url != url@,
            decreases self.entries@.len() - i,
        {
            assert(self@[i as int] == self.entries@[i as int]@);
            if text_eq(self.entries[i].url.as_str(), url) {
                return true;
            }
            i = i + 1;
        }
        false
    }

    /// Sets `route` under its method and URL, replacing the route there.
    pub fn insert(&mut self, route: RouteInfo)
        requires
            old(self).wf(),
            route.wf(),
        ensures
            final(self).wf(),
            final(self)@ == route_put(old(self)@, route@),
    {
        proof {
            lemma_route_index(self@, route@.method, route@.url);
            lemma_route_put(self@, route@, route@.method, route@.url);
        }
        let ghost rv = route@;
        match self.find(route.method.as_str(), route.url.as_str()) {
            Some(i) => {
                self.entries.set(i, route);
            },
            None => {
                self.entries.push(route);
            },
        }
        assert(self@ =~= route_put(old(self)@, rv));
    }
}

/// Whether every route with a cached body has bytes in the cache under its URL.
pub open spec fn cache_covers(routes: Seq<RouteView>, cache: Map<Seq<char>, Seq<u8>>) -> bool {
    forall|i: int|
        0 <= i < routes.len() && (#[trigger] routes[i]).body == ContentView::Cache ==> cache_lookup(
            cache,
            routes[i].url,
        ).is_some()
}

/// The route table together with the file cache that its cached routes read.
#[derive(Debug)]
pub struct Router {
    table: RouteTable,
    cache: FileCache,
}

impl Router {
    /// The table is well formed and every cached route has its bytes.
    pub closed spec fn wf(&self) -> bool {
        &&& self.table.wf()
        &&& cache_covers(self.table@, self.cache@)
    }

    /// The routes.
    pub closed spec fn routes(&self) -> Seq<RouteView> {
        self.table@
    }

    /// The cached files.
    pub closed spec fn files(&self) -> Map<Seq<char>, Seq<u8>> {
        self.cache@
    }

    /// No routes and an empty cache.
    pub fn new() -> (r: Router)
        ensures
            r.wf(),
            r.routes() == Seq::<RouteView>::empty(),
            r.files() == Map::<Seq<char>, Seq<u8>>::empty(),
    {
        Router { table: RouteTable::new(), cache: FileCache::new() }
    }

    /// The route table.
    pub fn table(&self) -> (r: &RouteTable)
        ensures
            r@ == self.routes(),
            self.wf() ==> r.wf(),
    {
        &self.table
    }

    /// The file cache.
    pub fn cache(&self) -> (r: &FileCache)
        ensures
            r@ == self.files(),
    {
        &self.cache
    }

    /// Publishes `route`, storing `cached` under its URL first when given;
    /// a route with a cached body must come with its bytes.
    pub fn install(&mut self, route: RouteInfo, cached: Option<Buf>)
        requires
            old(self).wf(),
            route.wf(),
            route.body@ == ContentView::Cache ==> cached.is_some(),
        ensures
            final(self).wf(),
            final(self).routes() == route_put(old(self).routes(), route@),
            final(self).files() == match cached {
                Some(b) => cache_put(old(self).files(), route.url@, b@),
                None => old(self).files(),
            },
    {
        let ghost rv = route@;
        let ghost old_routes = self.table@;
        let ghost old_cache = self.cache@;
        match cached {
            Some(b) => {
                let url = route.url.clone();
                self.cache.put(url, b);
            },
            None => {},
        }
        self.table.insert(route);
        proof {
            lemma_route_index(old_routes, rv.method, rv.url);
            let t = self.table@;
            assert forall|i: int|
                0 <= i < t.len() && (#[trigger] t[i]).body == ContentView::Cache implies cache_lookup(
                self.cache@,
                t[i].url,
            ).is_some() by {
                let k = route_index(old_routes, rv.method, rv.url);
                if (k >= 0 && i == k) || (k < 0 && i == old_routes.len()) {
                    assert(t[i] == rv);
                    lemma_cache_put(old_cache, rv.url, cached.unwrap()@, rv.url);
                } else {
                    assert(t[i] == old_routes[i]);
                    if cached.is_some() {
                        lemma_cache_put(old_cache, rv.url, cached.unwrap()@, t[i].url);
                    }
                }
            }
        }
    }
}

/// Every route with a cached body, once published, finds its bytes in the
/// file cache under the same URL.
pub proof fn lemma_cached_route_has_bytes(router: &Router, method: Seq<char>, url: Seq<char>)
    requires
        router.wf(),
        route_lookup(router.routes(), method, url).is_some(),
        route_lookup(router.routes(), method, url).unwrap().body == ContentView::Cache,
    ensures
        cache_lookup(router.files(), url).is_some(),
{
    lemma_route_index(router.routes(), method, url);
    let i = route_index(router.routes(), method, url);
    assert(router.routes()[i].body == ContentView::Cache);
}

} // verus!
