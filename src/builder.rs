//! Route Builder: walks the configuration tree into route plans, then builds
//! the route table and file cache from the plans and what the filesystem
//! said about their files. Bad entries are skipped, never fatal.
use vstd::prelude::*;
use vstd::string::StrSliceExecFns;
use std::str::FromStr;

use crate::config::{get, lookup, ConfigNode};
use crate::headers::{headers_model, parse_headers, HeaderList};
use crate::policy::{resolution_spec, resolve_file, FileFacts, ResolutionView};
use crate::route::{method_accepted, method_accepts, ContentView, RouteInfo, RouteView};
use crate::text::{all_ascii, ascii_upper};
use crate::router::{
    cache_lookup, cache_put, keys_unique, lemma_cache_put, lemma_route_put, route_lookup, route_put,
    Router,
};

verus! {

/// The upper-case form of a text.
pub uninterp spec fn uppercase_of(s: Seq<char>) -> Seq<char>;

/// Relies on `str::to_uppercase`: the result depends on the characters
/// alone, and an ASCII text has its ASCII letters upper-cased.
#[verifier::external_body]
fn uppercase(s: &str) -> (r: String)
    ensures
        r@ == uppercase_of(s@),
        all_ascii(s@) ==> r@ == ascii_upper(s@),
{
    s.to_uppercase()
}

/// Whether every `$` of a path is followed by an ASCII character or ends it,
/// so that `shellexpand` never slices inside a character after a `$`.
pub open spec fn expand_safe(s: Seq<char>) -> bool {
    forall|i: int| 0 <= i < s.len() - 1 && #[trigger] s[i] == '$' ==> (s[i + 1] as u32) < 128
}

/// Relies on `shellexpand::full`: expands environment variables and a leading
/// `~`. A lookup of the environment may fail, so nothing is promised of the
/// result when the path holds a `$`; without one it succeeds, and without a
/// leading `~` either it gives the path back unchanged. It slices right after
/// a `$` followed by a letter, so such a letter must be ASCII.
#[verifier::external_body]
fn expand_path(s: &str) -> (r: Option<String>)
    requires
        expand_safe(s@),
    ensures
        !s@.contains('$') ==> r.is_some(),
        !s@.contains('$') && !(s@.len() > 0 && s@[0] == '~') ==> r.is_some() && r.unwrap()@
            == s@,
{
    shellexpand::full(s).ok().map(|p| p.into_owned())
}

/// Whether `path` may be handed to `expand_path`.
fn check_expand_safe(path: &str) -> (r: bool)
    ensures
        r == expand_safe(path@),
{
    let n = path.unicode_len();
    if n < 2 {
        return true;
    }
    let mut i: usize = 0;
    while i < n - 1
        invariant
            n == path@.len(),
            n >= 2,
            i <= n - 1,
            forall|j: int| 0 <= j < i && #[trigger] path@[j] == '$' ==> (path@[j + 1] as u32) < 128,
        decreases n - 1 - i,
    {
        if path.get_char(i) == '$' && (path.get_char(i + 1) as u32) >= 128 {
            return false;
        }
        i = i + 1;
    }
    true
}

/// The status code that a three-character text names: three ASCII digits,
/// the first not zero.
pub open spec fn status_of_text(s: Seq<char>) -> Option<u16> {
    if s.len() == 3 && '1' <= s[0] <= '9' && '0' <= s[1] <= '9' && '0' <= s[2] <= '9' {
        Some(
            ((s[0] as u32 - '0' as u32) * 100 + (s[1] as u32 - '0' as u32) * 10 + (s[2] as u32
                - '0' as u32)) as u16,
        )
    } else {
        None
    }
}

/// Relies on `hyper::StatusCode::from_str`: it accepts exactly three ASCII
/// digits whose first is not zero, and gives their value.
#[verifier::external_body]
fn status_from_text(s: &str) -> (r: Option<u16>)
    ensures
        r == status_of_text(s@),
{
    hyper::StatusCode::from_str(s).ok().map(|c| c.as_u16())
}

/// The status code that an entry's field `key` names: 200 when the field is
/// absent, not a string, or not a status code.
pub fn parse_status_code(fields: &Vec<(ConfigNode, ConfigNode)>, key: &str) -> (r: u16)
    ensures
        r == match lookup(fields@, key@) {
            Some(ConfigNode::Str(t)) => match status_of_text(t@) {
                Some(c) => c,
                None => 200,
            },
            _ => 200,
        },
{
    match get(fields, key) {
        Some(ConfigNode::Str(t)) => match status_from_text(t.as_str()) {
            Some(c) => c,
            None => 200,
        },
        _ => 200,
    }
}

/// A route's `file` field after path expansion.
#[derive(Debug)]
pub enum FileField {
    /// The entry has no `file` field.
    Missing,
    /// The path could not be expanded; the entry yields no route.
    Unexpandable,
    /// The expanded path.
    Path(String),
}

/// One route-definition entry, validated and ready to resolve.
#[derive(Debug)]
pub struct RoutePlan {
    /// The method, upper-cased.
    pub method: String,
    pub url: String,
    pub file: FileField,
    pub headers: HeaderList,
}

/// A route-definition entry as the configuration states it, before path expansion.
pub struct PlanSpec {
    pub method: Seq<char>,
    pub url: Seq<char>,
    pub raw_file: Option<Seq<char>>,
    pub headers: Seq<(Seq<char>, Seq<char>)>,
}

/// The headers that an entry's fields describe.
pub open spec fn fields_headers(fields: Seq<(ConfigNode, ConfigNode)>) -> Seq<(Seq<char>, Seq<char>)> {
    match lookup(fields, "headers"@) {
        Some(h) => headers_model(h),
        None => seq![],
    }
}

/// The plan of one sequence element: it must be a mapping with a string
/// `url`, and a `file` that is a string when present.
pub open spec fn element_plan(method: Seq<char>, elem: ConfigNode) -> Option<PlanSpec> {
    match elem {
        ConfigNode::Mapping(fields) => match lookup(fields@, "url"@) {
            Some(ConfigNode::Str(u)) => match lookup(fields@, "file"@) {
                None => Some(
                    PlanSpec {
                        method,
                        url: u@,
                        raw_file: None,
                        headers: fields_headers(fields@),
                    },
                ),
                Some(ConfigNode::Str(p)) => Some(
                    PlanSpec {
                        method,
                        url: u@,
                        raw_file: Some(p@),
                        headers: fields_headers(fields@),
                    },
                ),
                Some(_) => None,
            },
            _ => None,
        },
        _ => None,
    }
}

/// The plans of the first `n` elements of a method's sequence.
pub open spec fn elements_plans(method: Seq<char>, elems: Seq<ConfigNode>, n: int) -> Seq<PlanSpec>
    decreases n,
{
    if n <= 0 {
        seq![]
    } else {
        let prev = elements_plans(method, elems, n - 1);
        match element_plan(method, elems[n - 1]) {
            Some(p) => prev.push(p),
            None => prev,
        }
    }
}

/// The plans of one method block: its key must be a string naming a valid
/// method once upper-cased, and its value a sequence.
pub open spec fn block_plans(entry: (ConfigNode, ConfigNode)) -> Seq<PlanSpec> {
    match (entry.0, entry.1) {
        (ConfigNode::Str(k), ConfigNode::List(elems)) => {
            let m = uppercase_of(k@);
            if method_accepts(m) {
                elements_plans(m, elems@, elems@.len() as int)
            } else {
                seq![]
            }
        },
        _ => seq![],
    }
}

/// The plans of the first `n` method blocks.
pub open spec fn blocks_plans(entries: Seq<(ConfigNode, ConfigNode)>, n: int) -> Seq<PlanSpec>
    decreases n,
{
    if n <= 0 {
        seq![]
    } else {
        blocks_plans(entries, n - 1) + block_plans(entries[n - 1])
    }
}

/// The plans of a configuration document: none unless its root is a mapping.
pub open spec fn plan_spec(config: ConfigNode) -> Seq<PlanSpec> {
    match config {
        ConfigNode::Mapping(entries) => blocks_plans(entries@, entries@.len() as int),
        _ => seq![],
    }
}

/// Whether a file field holds the path `q`.
pub open spec fn file_is(f: FileField, q: Seq<char>) -> bool {
    match f {
        FileField::Path(t) => t@ == q,
        _ => false,
    }
}

/// Whether `p` is the plan `s` with its file path expanded: a path without
/// `$` always expands, and comes back unchanged unless it starts with `~`;
/// only a path with `$` may fail to expand.
pub open spec fn plan_agrees(p: RoutePlan, s: PlanSpec) -> bool {
    &&& p.method@ == s.method
    &&& p.url@ == s.url
    &&& p.headers@ == s.headers
    &&& p.headers.wf()
    &&& (p.file is Missing <==> s.raw_file.is_none())
    &&& (p.file is Unexpandable ==> s.raw_file.is_some() && s.raw_file.unwrap().contains('$'))
    &&& (s.raw_file.is_some() && !s.raw_file.unwrap().contains('$') ==> p.file is Path)
    &&& (s.raw_file.is_some() && !s.raw_file.unwrap().contains('$') && !(s.raw_file.unwrap().len()
        > 0 && s.raw_file.unwrap()[0] == '~') ==> file_is(p.file, s.raw_file.unwrap()))
}

/// Whether each plan of `ps` agrees with the one of `ss` at its position.
pub open spec fn plans_agree(ps: Seq<RoutePlan>, ss: Seq<PlanSpec>) -> bool {
    &&& ps.len() == ss.len()
    &&& forall|k: int| 0 <= k < ps.len() ==> plan_agrees(#[trigger] ps[k], ss[k])
}

/// The plan of one sequence element, if it yields one.
fn plan_element(method: &String, elem: &ConfigNode) -> (r: Option<RoutePlan>)
    ensures
        r.is_none() <==> element_plan(method@, *elem).is_none(),
        r.is_some() ==> plan_agrees(r.unwrap(), element_plan(method@, *elem).unwrap()),
{
    let fields = match elem {
        ConfigNode::Mapping(fields) => fields,
        _ => {
            return None;
        },
    };
    let url = match get(fields, "url") {
        Some(ConfigNode::Str(u)) => u,
        _ => {
            return None;
        },
    };
    let file = match get(fields, "file") {
        None => FileField::Missing,
        Some(ConfigNode::Str(p)) => {
            if check_expand_safe(p.as_str()) {
                match expand_path(p.as_str()) {
                    Some(full) => FileField::Path(full),
                    None => FileField::Unexpandable,
                }
            } else {
                proof {
                    let i = choose|i: int|
                        0 <= i < p@.len() - 1 && #[trigger] p@[i] == '$' && !((p@[i + 1] as u32) < 128);
                    assert(p@[i] == '$');
                }
                FileField::Unexpandable
            }
        },
        Some(_) => {
            return None;
        },
    };
    let headers = match get(fields, "headers") {
        Some(h) => parse_headers(h),
        None => HeaderList::new(),
    };
    Some(RoutePlan { method: method.clone(), url: url.clone(), file, headers })
}

/// Appends the plans of a method's sequence to `out`.
fn plan_elements(method: &String, elems: &Vec<ConfigNode>, out: &mut Vec<RoutePlan>)
    ensures
        final(out)@.len() == old(out)@.len() + elements_plans(
            method@,
            elems@,
            elems@.len() as int,
        ).len(),
        final(out)@.subrange(0, old(out)@.len() as int) == old(out)@,
        plans_agree(
            final(out)@.subrange(old(out)@.len() as int, final(out)@.len() as int),
            elements_plans(method@, elems@, elems@.len() as int),
        ),
{
    let ghost start = out@.len();
    let mut i: usize = 0;
    while i < elems.len()
        invariant
            i <= elems@.len(),
            start <= out@.len(),
            out@.len() == start + elements_plans(method@, elems@, i as int).len(),
            out@.subrange(0, start as int) == old(out)@,
            plans_agree(
                out@.subrange(start as int, out@.len() as int),
                elements_plans(method@, elems@, i as int),
            ),
        decreases elems@.len() - i,
    {
        let ghost before = out@;
        match plan_element(method, &elems[i]) {
            Some(p) => {
                out.push(p);
                assert(out@.subrange(0, start as int) =~= before.subrange(0, start as int));
                assert(out@.subrange(start as int, out@.len() as int) =~= before.subrange(
                    start as int,
                    before.len() as int,
                ).push(p));
            },
            None => {},
        }
        i = i + 1;
    }
}

/// The route plans of a configuration document, in document order: for each
/// method block whose value is a sequence and whose key is a string that,
/// upper-cased, is a valid method, each element that is a mapping with a
/// string `url` and, if present, a string `file`. Other blocks and elements
/// are skipped.
pub fn plan_routes(config: &ConfigNode) -> (r: Vec<RoutePlan>)
    ensures
        plans_agree(r@, plan_spec(*config)),
{
    let mut out: Vec<RoutePlan> = Vec::new();
    let entries = match config {
        ConfigNode::Mapping(entries) => entries,
        _ => {
            return out;
        },
    };
    let mut i: usize = 0;
    while i < entries.len()
        invariant
            i <= entries@.len(),
            plans_agree(out@, blocks_plans(entries@, i as int)),
        decreases entries@.len() - i,
    {
        let ghost before = out@;
        match (&entries[i].0, &entries[i].1) {
            (ConfigNode::Str(k), ConfigNode::List(elems)) => {
                let method = uppercase(k.as_str());
                if method_accepted(method.as_str()) {
                    plan_elements(&method, elems, &mut out);
                    assert(out@ =~= before + out@.subrange(before.len() as int, out@.len() as int));
                    let ghost tail = out@.subrange(before.len() as int, out@.len() as int);
                    assert forall|k: int| 0 <= k < out@.len() implies plan_agrees(
                        #[trigger] out@[k],
                        blocks_plans(entries@, i + 1)[k],
                    ) by {
                        if k < before.len() {
                            assert(out@[k] == before[k]);
                        } else {
                            assert(out@[k] == tail[k - before.len()]);
                        }
                    }
                } else {
                    assert(blocks_plans(entries@, i + 1) =~= blocks_plans(entries@, i as int));
                }
            },
            _ => {
                assert(blocks_plans(entries@, i + 1) =~= blocks_plans(entries@, i as int));
            },
        }
        i = i + 1;
    }
    out
}

/// The expanded path of a plan, if it has one.
pub open spec fn plan_path(p: RoutePlan) -> Option<Seq<char>> {
    match p.file {
        FileField::Path(s) => Some(s@),
        _ => None,
    }
}

/// The route that a plan yields once its file is resolved.
pub open spec fn planned_route(p: RoutePlan, res: ResolutionView) -> RouteView {
    RouteView {
        url: p.url@,
        method: p.method@,
        status_code: res.status_code,
        mime_type: res.mime_type,
        headers: p.headers@,
        body: res.body,
    }
}

/// The resolution of the `i`-th plan under the `i`-th file facts.
pub open spec fn plan_resolution(plans: Seq<RoutePlan>, facts: Seq<FileFacts>, i: int) -> ResolutionView {
    resolution_spec(plan_path(plans[i]), facts[i])
}

/// The routes published after the first `n` plans: each plan whose path
/// could be expanded sets its route, later ones replacing earlier ones of the
/// same method and URL.
pub open spec fn built_routes(plans: Seq<RoutePlan>, facts: Seq<FileFacts>, n: int) -> Seq<RouteView>
    decreases n,
{
    if n <= 0 {
        seq![]
    } else {
        let prev = built_routes(plans, facts, n - 1);
        if plans[n - 1].file is Unexpandable {
            prev
        } else {
            route_put(prev, planned_route(plans[n - 1], plan_resolution(plans, facts, n - 1)))
        }
    }
}

/// The files cached after the first `n` plans: each cached text file under
/// its plan's URL.
pub open spec fn built_files(plans: Seq<RoutePlan>, facts: Seq<FileFacts>, n: int) -> Map<Seq<char>, Seq<u8>>
    decreases n,
{
    if n <= 0 {
        Map::empty()
    } else {
        let prev = built_files(plans, facts, n - 1);
        if plans[n - 1].file is Unexpandable {
            prev
        } else {
            match plan_resolution(plans, facts, n - 1).cached {
                Some(b) => cache_put(prev, plans[n - 1].url@, b),
                None => prev,
            }
        }
    }
}

/// Builds the route table and file cache from `plans`, where `facts[i]`
/// tells what the filesystem said about the file of `plans[i]`.
pub fn build_routes(plans: &Vec<RoutePlan>, facts: &Vec<FileFacts>) -> (r: Router)
    requires
        facts@.len() == plans@.len(),
        forall|i: int| 0 <= i < plans@.len() ==> (#[trigger] plans@[i]).headers.wf(),
    ensures
        r.wf(),
        r.routes() == built_routes(plans@, facts@, plans@.len() as int),
        r.files() == built_files(plans@, facts@, plans@.len() as int),
{
    let mut router = Router::new();
    let mut i: usize = 0;
    while i < plans.len()
        invariant
            i <= plans@.len(),
            facts@.len() == plans@.len(),
            forall|k: int| 0 <= k < plans@.len() ==> (#[trigger] plans@[k]).headers.wf(),
            router.wf(),
            router.routes() == built_routes(plans@, facts@, i as int),
            router.files() == built_files(plans@, facts@, i as int),
        decreases plans@.len() - i,
    {
        let plan = &plans[i];
        let path: Option<&str> = match &plan.file {
            FileField::Unexpandable => {
                i = i + 1;
                continue;
            },
            FileField::Missing => None,
            FileField::Path(p) => Some(p.as_str()),
        };
        let res = resolve_file(path, &facts[i]);
        let route = RouteInfo {
            url: plan.url.clone(),
            method: plan.method.clone(),
            status_code: res.status_code,
            mime_type: res.mime_type,
            headers: plan.headers.copy(),
            body: res.body,
        };
        router.install(route, res.cached);
        i = i + 1;
    }
    router
}

/// The route that the last of the first `n` plans for `method` and `url`
/// sets, if any.
pub open spec fn last_route(
    plans: Seq<RoutePlan>,
    facts: Seq<FileFacts>,
    n: int,
    method: Seq<char>,
    url: Seq<char>,
) -> Option<RouteView>
    decreases n,
{
    if n <= 0 {
        None
    } else {
        let p = plans[n - 1];
        if !(p.file is Unexpandable) && p.method@ == method && p.url@ == url {
            Some(planned_route(p, plan_resolution(plans, facts, n - 1)))
        } else {
            last_route(plans, facts, n - 1, method, url)
        }
    }
}

/// The bytes that the last of the first `n` plans for `url` caches, if any.
pub open spec fn last_cached(plans: Seq<RoutePlan>, facts: Seq<FileFacts>, n: int, url: Seq<char>) -> Option<
    Seq<u8>,
>
    decreases n,
{
    if n <= 0 {
        None
    } else {
        let p = plans[n - 1];
        let res = plan_resolution(plans, facts, n - 1);
        if !(p.file is Unexpandable) && p.url@ == url && res.cached.is_some() {
            res.cached
        } else {
            last_cached(plans, facts, n - 1, url)
        }
    }
}

/// A lookup in the built table finds the last plan of that key; a lookup in
/// the built cache finds the last cached file of that URL.
pub proof fn lemma_built_lookup(
    plans: Seq<RoutePlan>,
    facts: Seq<FileFacts>,
    n: int,
    method: Seq<char>,
    url: Seq<char>,
)
    ensures
        keys_unique(built_routes(plans, facts, n)),
        route_lookup(built_routes(plans, facts, n), method, url) == last_route(
            plans,
            facts,
            n,
            method,
            url,
        ),
        cache_lookup(built_files(plans, facts, n), url) == last_cached(plans, facts, n, url),
    decreases n,
{
    if n > 0 {
        lemma_built_lookup(plans, facts, n - 1, method, url);
        let prev = built_routes(plans, facts, n - 1);
        let p = plans[n - 1];
        let res = plan_resolution(plans, facts, n - 1);
        if !(p.file is Unexpandable) {
            lemma_route_put(prev, planned_route(p, res), method, url);
            if res.cached.is_some() {
                lemma_cache_put(built_files(plans, facts, n - 1), p.url@, res.cached.unwrap(), url);
            }
        }
    }
}

proof fn lemma_last_prefix(
    plans: Seq<RoutePlan>,
    facts: Seq<FileFacts>,
    pp: Seq<RoutePlan>,
    ff: Seq<FileFacts>,
    j: int,
    method: Seq<char>,
    url: Seq<char>,
)
    requires
        0 <= j <= plans.len(),
        facts.len() == plans.len(),
        pp == plans + plans,
        ff == facts + facts,
    ensures
        last_route(pp, ff, j, method, url) == last_route(plans, facts, j, method, url),
        last_cached(pp, ff, j, url) == last_cached(plans, facts, j, url),
    decreases j,
{
    if j > 0 {
        assert(pp[j - 1] == plans[j - 1]);
        assert(ff[j - 1] == facts[j - 1]);
        lemma_last_prefix(plans, facts, pp, ff, j - 1, method, url);
    }
}

proof fn lemma_last_second_pass(
    plans: Seq<RoutePlan>,
    facts: Seq<FileFacts>,
    pp: Seq<RoutePlan>,
    ff: Seq<FileFacts>,
    k: int,
    method: Seq<char>,
    url: Seq<char>,
)
    requires
        0 <= k <= plans.len(),
        facts.len() == plans.len(),
        pp == plans + plans,
        ff == facts + facts,
    ensures
        last_route(pp, ff, plans.len() + k, method, url) == match last_route(
            plans,
            facts,
            k,
            method,
            url,
        ) {
            Some(r) => Some(r),
            None => last_route(plans, facts, plans.len() as int, method, url),
        },
        last_cached(pp, ff, plans.len() + k, url) == match last_cached(plans, facts, k, url) {
            Some(b) => Some(b),
            None => last_cached(plans, facts, plans.len() as int, url),
        },
    decreases k,
{
    if k == 0 {
        lemma_last_prefix(plans, facts, pp, ff, plans.len() as int, method, url);
    } else {
        let n = plans.len() as int;
        assert(pp[n + k - 1] == plans[k - 1]);
        assert(ff[n + k - 1] == facts[k - 1]);
        lemma_last_second_pass(plans, facts, pp, ff, k - 1, method, url);
    }
}

/// Publishing the same plans with the same file facts twice over, as a
/// rebuild from the same document onto the built table does, leaves every
/// key with the same route and every URL with the same cached bytes as
/// publishing them once.
pub proof fn lemma_rebuild_idempotent(
    plans: Seq<RoutePlan>,
    facts: Seq<FileFacts>,
    method: Seq<char>,
    url: Seq<char>,
)
    requires
        facts.len() == plans.len(),
    ensures
        route_lookup(built_routes(plans + plans, facts + facts, 2 * plans.len() as int), method, url)
            == route_lookup(built_routes(plans, facts, plans.len() as int), method, url),
        cache_lookup(built_files(plans + plans, facts + facts, 2 * plans.len() as int), url)
            == cache_lookup(built_files(plans, facts, plans.len() as int), url),
{
    let n = plans.len() as int;
    lemma_built_lookup(plans + plans, facts + facts, 2 * n, method, url);
    lemma_built_lookup(plans, facts, n, method, url);
    lemma_last_second_pass(plans, facts, plans + plans, facts + facts, n, method, url);
}

proof fn lemma_last_cached_route(
    plans: Seq<RoutePlan>,
    facts: Seq<FileFacts>,
    n: int,
    method: Seq<char>,
    url: Seq<char>,
)
    requires
        last_route(plans, facts, n, method, url).is_some(),
        last_route(plans, facts, n, method, url).unwrap().body == ContentView::Cache,
    ensures
        last_cached(plans, facts, n, url).is_some(),
    decreases n,
{
    let p = plans[n - 1];
    if !(!(p.file is Unexpandable) && p.method@ == method && p.url@ == url) {
        if !(!(p.file is Unexpandable) && p.url@ == url && plan_resolution(
            plans,
            facts,
            n - 1,
        ).cached.is_some()) {
            lemma_last_cached_route(plans, facts, n - 1, method, url);
        }
    }
}

/// Whatever the plans and file facts, every route that a build publishes
/// with a cached body finds bytes in the built cache under its URL.
pub proof fn lemma_built_cache_covers(
    plans: Seq<RoutePlan>,
    facts: Seq<FileFacts>,
    method: Seq<char>,
    url: Seq<char>,
)
    requires
        route_lookup(built_routes(plans, facts, plans.len() as int), method, url).is_some(),
        route_lookup(built_routes(plans, facts, plans.len() as int), method, url).unwrap().body
            == ContentView::Cache,
    ensures
        cache_lookup(built_files(plans, facts, plans.len() as int), url).is_some(),
{
    lemma_built_lookup(plans, facts, plans.len() as int, method, url);
    lemma_last_cached_route(plans, facts, plans.len() as int, method, url);
}

/// Building twice from the same plans and the same file facts publishes the
/// same routes, with the same status, type, headers and body under each key,
/// and the same cached files.
pub proof fn lemma_build_deterministic(
    a: &Router,
    b: &Router,
    plans: Seq<RoutePlan>,
    facts: Seq<FileFacts>,
)
    requires
        a.routes() == built_routes(plans, facts, plans.len() as int),
        a.files() == built_files(plans, facts, plans.len() as int),
        b.routes() == built_routes(plans, facts, plans.len() as int),
        b.files() == built_files(plans, facts, plans.len() as int),
    ensures
        a.routes() == b.routes(),
        a.files() == b.files(),
{
}

} // verus!
