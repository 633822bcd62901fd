use mock_server::builder::{build_routes, parse_status_code, plan_routes, FileField, RoutePlan};
use mock_server::config::ConfigNode;
use mock_server::dispatch::{Response, ResponseBody};
use mock_server::mime::MimeType;
use mock_server::policy::{needs_contents, FileFacts};
use mock_server::router::Router;
use mock_server::route::Content;
use mock_server::stats::StatShard;

fn s(t: &str) -> ConfigNode {
    ConfigNode::Str(t.to_string())
}

fn entry(url: &str, file: Option<&str>) -> ConfigNode {
    let mut fields = vec![(s("url"), s(url))];
    if let Some(f) = file {
        fields.push((s("file"), s(f)));
    }
    ConfigNode::Mapping(fields)
}

fn doc(blocks: Vec<(&str, Vec<ConfigNode>)>) -> ConfigNode {
    ConfigNode::Mapping(
        blocks.into_iter().map(|(m, items)| (s(m), ConfigNode::List(items))).collect(),
    )
}

fn text_file(bytes: &[u8]) -> FileFacts {
    FileFacts {
        is_file: true,
        size: Ok(bytes.len() as u64),
        contents: Some(Ok(bytes.to_vec())),
    }
}

fn missing_file() -> FileFacts {
    FileFacts { is_file: false, size: Err("no such file".to_string()), contents: None }
}

fn build(config: &ConfigNode, mut facts_for: impl FnMut(&RoutePlan) -> FileFacts) -> Router {
    let plans = plan_routes(config);
    let facts: Vec<FileFacts> = plans.iter().map(|p| facts_for(p)).collect();
    build_routes(&plans, &facts)
}

fn body_text(r: &Response) -> String {
    match &r.body {
        ResponseBody::Text(t) => t.clone(),
        ResponseBody::Bytes(b) => String::from_utf8(b.get_data().to_vec()).unwrap(),
        ResponseBody::Empty => String::new(),
        ResponseBody::File(p) => format!("file:{}", p),
    }
}

#[test]
fn scenario_text_file_get_post_and_unknown_path() {
    let config = doc(vec![("GET", vec![entry("/a", Some("/tmp/a.txt"))])]);
    let router = build(&config, |_| text_file(b"hi"));
    let mut shard = StatShard::new();

    let r = router.handle(&mut shard, "GET", "/a");
    assert_eq!(r.status_code, 200);
    assert_eq!(r.content_type.as_deref(), Some("text/plain"));
    assert_eq!(body_text(&r), "hi");

    let r = router.handle(&mut shard, "POST", "/a");
    assert_eq!(r.status_code, 405);
    assert_eq!(body_text(&r), "method for this request is not implemented");

    let r = router.handle(&mut shard, "GET", "/b");
    assert_eq!(r.status_code, 404);
    assert!(matches!(r.body, ResponseBody::Empty));

    assert_eq!(shard.total(), 3);
}

#[test]
fn scenario_entry_without_file_field() {
    let config = doc(vec![("get", vec![entry("/nofile", None)])]);
    let router = build(&config, |_| missing_file());
    let r = router.respond("GET", "/nofile");
    assert_eq!(r.status_code, 404);
    assert_eq!(body_text(&r), "not found file path field");
    assert_eq!(r.content_type.as_deref(), Some("text/plain"));
}

#[test]
fn unconfigured_path_is_404_for_any_method() {
    let config = doc(vec![("GET", vec![entry("/a", None)])]);
    let router = build(&config, |_| missing_file());
    for m in ["GET", "POST", "PUT", "DELETE", "PATCH"] {
        let r = router.respond(m, "/elsewhere");
        assert_eq!(r.status_code, 404);
        assert!(matches!(r.body, ResponseBody::Empty));
    }
}

#[test]
fn wrong_method_is_405_with_several_methods_configured() {
    let config = doc(vec![
        ("GET", vec![entry("/x", None)]),
        ("POST", vec![entry("/x", None)]),
        ("PUT", vec![entry("/x", None)]),
    ]);
    let router = build(&config, |_| missing_file());
    assert_eq!(router.respond("DELETE", "/x").status_code, 405);
    assert_eq!(router.respond("GET", "/x").status_code, 404);
    assert_eq!(router.respond("POST", "/x").status_code, 404);
}

#[test]
fn cache_threshold_boundary() {
    let at_limit = vec![b'a'; 512 * 1024];
    let over_limit = vec![b'a'; 512 * 1024 + 1];
    assert!(needs_contents("/srv/small.txt", true, &Ok(at_limit.len() as u64)));
    assert!(!needs_contents("/srv/big.txt", true, &Ok(over_limit.len() as u64)));

    let config = doc(vec![(
        "GET",
        vec![entry("/small", Some("/srv/small.txt")), entry("/big", Some("/srv/big.txt"))],
    )]);
    let router = build(&config, |p| match &p.file {
        FileField::Path(path) if path.ends_with("small.txt") => text_file(&at_limit),
        _ => FileFacts {
            is_file: true,
            size: Ok(over_limit.len() as u64),
            contents: None,
        },
    });
    let small = router.respond("GET", "/small");
    assert_eq!(small.status_code, 200);
    match &small.body {
        ResponseBody::Bytes(b) => assert_eq!(b.get_data(), &at_limit[..]),
        other => panic!("expected cached bytes, got {:?}", other),
    }
    assert!(router.cache().get("/small").is_some());

    let big = router.respond("GET", "/big");
    assert_eq!(big.status_code, 200);
    assert_eq!(big.content_type.as_deref(), Some("text/plain"));
    match &big.body {
        ResponseBody::File(p) => assert_eq!(p, "/srv/big.txt"),
        other => panic!("expected a file body, got {:?}", other),
    }
    assert!(router.cache().get("/big").is_none());
}

#[test]
fn building_twice_gives_equivalent_tables() {
    let config = doc(vec![
        ("GET", vec![entry("/a", Some("/srv/a.txt")), entry("/n", None)]),
        ("POST", vec![entry("/a", Some("/srv/a.bin"))]),
    ]);
    let facts = |p: &RoutePlan| match &p.file {
        FileField::Path(path) if path.ends_with(".txt") => text_file(b"alpha"),
        FileField::Path(_) => text_file(b"\x00\x01"),
        _ => missing_file(),
    };
    let one = build(&config, facts);
    let two = build(&config, facts);
    assert_eq!(one.table().len(), two.table().len());
    for (m, p) in [("GET", "/a"), ("GET", "/n"), ("POST", "/a"), ("PUT", "/a"), ("GET", "/z")] {
        let a = one.respond(m, p);
        let b = two.respond(m, p);
        assert_eq!(a.status_code, b.status_code);
        assert_eq!(a.content_type, b.content_type);
        assert_eq!(body_text(&a), body_text(&b));
    }
}

#[test]
fn binary_and_extensionless_files_stream_as_octet_stream() {
    let config = doc(vec![(
        "GET",
        vec![entry("/img", Some("/srv/p.png")), entry("/raw", Some("/srv/README"))],
    )]);
    let router = build(&config, |_| FileFacts {
        is_file: true,
        size: Ok(10),
        contents: None,
    });
    for path in ["/img", "/raw"] {
        let r = router.respond("GET", path);
        assert_eq!(r.status_code, 200);
        assert_eq!(r.content_type.as_deref(), Some("application/octet-stream"));
        assert!(matches!(r.body, ResponseBody::File(_)));
    }
}

#[test]
fn unreadable_file_gives_500() {
    let config = doc(vec![("GET", vec![entry("/gone", Some("/srv/gone.txt"))])]);
    let router = build(&config, |_| missing_file());
    let r = router.respond("GET", "/gone");
    assert_eq!(r.status_code, 500);
    assert_eq!(body_text(&r), "not a file: /srv/gone.txt");
}

#[test]
fn metadata_and_read_failures_give_500() {
    let config = doc(vec![(
        "GET",
        vec![entry("/meta", Some("/srv/m.txt")), entry("/read", Some("/srv/r.txt"))],
    )]);
    let router = build(&config, |p| match &p.file {
        FileField::Path(path) if path.ends_with("m.txt") => FileFacts {
            is_file: true,
            size: Err("denied".to_string()),
            contents: None,
        },
        _ => FileFacts { is_file: true, size: Ok(4), contents: Some(Err("io".to_string())) },
    });
    let r = router.respond("GET", "/meta");
    assert_eq!(r.status_code, 500);
    assert_eq!(body_text(&r), "get file metadata failed: /srv/m.txt => denied");
    let r = router.respond("GET", "/read");
    assert_eq!(r.status_code, 500);
    assert_eq!(body_text(&r), "read file failed: /srv/r.txt => io");
}

#[test]
fn later_definition_wins() {
    let config = doc(vec![("GET", vec![entry("/d", Some("/srv/one.txt")), entry("/d", None)])]);
    let router = build(&config, |_| text_file(b"one"));
    assert_eq!(router.table().len(), 1);
    let r = router.respond("GET", "/d");
    assert_eq!(r.status_code, 404);
    assert_eq!(body_text(&r), "not found file path field");
}

#[test]
fn bad_blocks_and_entries_are_skipped() {
    let config = ConfigNode::Mapping(vec![
        (s("GET"), s("not a list")),
        (s("BAD METHOD"), ConfigNode::List(vec![entry("/m", None)])),
        (
            s("post"),
            ConfigNode::List(vec![
                s("not a mapping"),
                ConfigNode::Mapping(vec![(s("file"), s("/x"))]),
                ConfigNode::Mapping(vec![(s("url"), ConfigNode::Int(3))]),
                ConfigNode::Mapping(vec![(s("url"), s("/f")), (s("file"), ConfigNode::Int(1))]),
                entry("/ok", None),
            ]),
        ),
        (ConfigNode::Int(7), ConfigNode::List(vec![entry("/not-a-method", None)])),
    ]);
    let plans = plan_routes(&config);
    assert_eq!(plans.len(), 1);
    assert_eq!(plans[0].method, "POST");
    assert_eq!(plans[0].url, "/ok");
    assert!(matches!(plans[0].file, FileField::Missing));
}

#[test]
fn paths_that_would_break_expansion_are_skipped() {
    let config = doc(vec![(
        "GET",
        vec![entry("/bad", Some("/srv/$\u{e9}t\u{e9}.txt")), entry("/plain", Some("/srv/plain.txt"))],
    )]);
    let plans = plan_routes(&config);
    assert_eq!(plans.len(), 2);
    assert!(matches!(plans[0].file, FileField::Unexpandable));
    match &plans[1].file {
        FileField::Path(p) => assert_eq!(p, "/srv/plain.txt"),
        other => panic!("expected the path unchanged, got {:?}", other),
    }
    let router = build(&config, |_| text_file(b"x"));
    assert_eq!(router.respond("GET", "/bad").status_code, 404);
    assert_eq!(router.respond("GET", "/plain").status_code, 200);
}

#[test]
fn non_mapping_root_builds_nothing() {
    let plans = plan_routes(&ConfigNode::List(vec![entry("/a", None)]));
    assert!(plans.is_empty());
    let router = build_routes(&plans, &Vec::new());
    assert_eq!(router.table().len(), 0);
}

#[test]
fn configured_headers_are_sent() {
    let with_headers = ConfigNode::Mapping(vec![
        (s("url"), s("/h")),
        (
            s("headers"),
            ConfigNode::Mapping(vec![
                (s("X-Mode"), s("mock")),
                (s("bad name"), s("v")),
                (s("X-Bad-Value"), s("a\nb")),
                (s("x-mode"), s("final")),
            ]),
        ),
    ]);
    let config = doc(vec![("GET", vec![with_headers])]);
    let router = build(&config, |_| missing_file());
    let r = router.respond("GET", "/h");
    assert_eq!(r.headers.len(), 1);
    assert_eq!(r.headers.entry(0), ("x-mode", "final"));
}

#[test]
fn status_code_field() {
    let fields = vec![(s("status_code"), s("201")), (s("bad"), s("20x")), (s("num"), ConfigNode::Int(5))];
    assert_eq!(parse_status_code(&fields, "status_code"), 201);
    assert_eq!(parse_status_code(&fields, "bad"), 200);
    assert_eq!(parse_status_code(&fields, "num"), 200);
    assert_eq!(parse_status_code(&fields, "absent"), 200);
    let zero = vec![(s("c"), s("099"))];
    assert_eq!(parse_status_code(&zero, "c"), 200);
}

#[test]
fn tilde_path_is_expanded() {
    let config = doc(vec![("GET", vec![entry("/home", Some("~/f.txt"))])]);
    let plans = plan_routes(&config);
    assert_eq!(plans.len(), 1);
    match &plans[0].file {
        FileField::Path(p) => assert!(!p.starts_with('~')),
        FileField::Unexpandable => {}
        FileField::Missing => panic!("file field lost"),
    }
}

#[test]
fn content_and_mime_of_a_cached_route() {
    let config = doc(vec![("GET", vec![entry("/j", Some("/srv/data.json"))])]);
    let router = build(&config, |_| text_file(b"{}"));
    let r = router.respond("GET", "/j");
    assert_eq!(r.content_type.as_deref(), Some("application/json"));
    assert!(matches!(MimeType::resolve("json"), MimeType::ApplicationJson));
    let _ = Content::Cache;
}

#[test]
fn rebuilding_over_itself_changes_nothing() {
    let config = doc(vec![
        ("GET", vec![entry("/a", Some("/srv/a.txt")), entry("/a", Some("/srv/b.txt"))]),
        ("POST", vec![entry("/p", None)]),
    ]);
    let facts = |p: &RoutePlan| match &p.file {
        FileField::Path(path) if path.ends_with("a.txt") => text_file(b"first"),
        FileField::Path(_) => text_file(b"second"),
        _ => missing_file(),
    };
    let once = build(&config, facts);
    let mut twice_plans = plan_routes(&config);
    twice_plans.extend(plan_routes(&config));
    let twice_facts: Vec<FileFacts> = twice_plans.iter().map(|p| facts(p)).collect();
    let twice = build_routes(&twice_plans, &twice_facts);
    assert_eq!(once.table().len(), twice.table().len());
    for (m, p) in [("GET", "/a"), ("POST", "/p"), ("POST", "/a"), ("GET", "/none")] {
        let a = once.respond(m, p);
        let b = twice.respond(m, p);
        assert_eq!(a.status_code, b.status_code);
        assert_eq!(body_text(&a), body_text(&b));
    }
    assert_eq!(body_text(&once.respond("GET", "/a")), "second");
}
