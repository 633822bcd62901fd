use mock_server::buf::Buf;
use mock_server::census::{ConnectionSnapshot, SocketRecord, TcpState};
use mock_server::error::{Error, ErrorKind};
use mock_server::headers::{parse_headers, HeaderList};
use mock_server::mime::{MimeType, MimeTypeParseError};
use mock_server::route::RouteInfo;
use mock_server::stats::{merge_shards, StatShard, Statistics};
use mock_server::text::file_extension;
use mock_server::config::ConfigNode;

#[test]
fn mime_from_extension() {
    assert_eq!(MimeType::from_str("html"), Ok(MimeType::TextHtml));
    assert_eq!(MimeType::from_str("htm"), Ok(MimeType::TextHtml));
    assert_eq!(MimeType::from_str("png"), Ok(MimeType::ImagePng));
    assert_eq!(MimeType::from_str("exe"), Ok(MimeType::ApplicationOctetStream));
    assert_eq!(MimeType::from_str("nope"), Err(MimeTypeParseError));
    assert_eq!(MimeType::resolve(""), MimeType::ApplicationOctetStream);
    assert_eq!(MimeTypeParseError.to_string(), "parse mime type from file extension failed");
}

#[test]
fn mime_labels_and_text_split() {
    assert_eq!(MimeType::TextPlain.to_string(), "text/plain");
    assert_eq!(MimeType::ApplicationMsDocx.as_str(), "application/vnd.openxmlformats-officedocument.wordprocessingml.document");
    assert_eq!(MimeType::VideoAvi.to_string(), "video/x-msvideo");
    assert!(MimeType::TextCss.is_text());
    assert!(MimeType::ApplicationJson.is_text());
    assert!(MimeType::ApplicationJavaScript.is_text());
    assert!(!MimeType::ImagePng.is_text());
    assert!(!MimeType::ApplicationOctetStream.is_text());
}

#[test]
fn path_extensions() {
    assert_eq!(file_extension("/a/b/c.txt").as_deref(), Some("txt"));
    assert_eq!(file_extension("/a/b.d/c").as_deref(), None);
    assert_eq!(file_extension("archive.tar.gz").as_deref(), Some("gz"));
    assert_eq!(file_extension("/home/.bashrc").as_deref(), None);
    assert_eq!(file_extension("/x/a.").as_deref(), Some(""));
    assert_eq!(file_extension("..").as_deref(), None);
    assert_eq!(file_extension("").as_deref(), None);
}

#[test]
fn buffers() {
    let z = Buf::new(4).unwrap();
    assert_eq!(z.get_data(), &[0u8, 0, 0, 0]);
    assert_eq!(z.len(), 4);
    let b = Buf::from_vec(&vec![1u8, 2, 3]).unwrap();
    let c = b.share();
    assert_eq!(c.get_data(), &[1u8, 2, 3]);
    assert_eq!(b.len(), 3);
    assert!(Buf::new(usize::MAX).is_none());
}

#[test]
fn errors() {
    let e = Error::new(ErrorKind::UnsupportedMethod);
    assert_eq!(e.kind(), ErrorKind::UnsupportedMethod);
    assert_eq!(e.to_string(), "Unsupported Method");
    assert_eq!(ErrorKind::InvalidStatusCode.description(), "Invalid Status Code");
}

#[test]
fn route_info_validation() {
    let r = RouteInfo::new("/a".to_string(), "GET".to_string(), 200).unwrap();
    assert_eq!(r.status_code, 200);
    assert_eq!(r.mime_type, MimeType::ApplicationOctetStream);
    let e = RouteInfo::new("/a".to_string(), "".to_string(), 200).unwrap_err();
    assert_eq!(e.kind(), ErrorKind::UnsupportedMethod);
    let e = RouteInfo::new("/a".to_string(), "BAD METHOD".to_string(), 200).unwrap_err();
    assert_eq!(e.kind(), ErrorKind::UnsupportedMethod);
    let e = RouteInfo::new("/a".to_string(), "GET".to_string(), 99).unwrap_err();
    assert_eq!(e.kind(), ErrorKind::InvalidStatusCode);
    let e = RouteInfo::new("/a".to_string(), "GET".to_string(), 1000).unwrap_err();
    assert_eq!(e.kind(), ErrorKind::InvalidStatusCode);
    assert!(RouteInfo::new("/a".to_string(), "PURGE".to_string(), 999).is_ok());
    let d = RouteInfo::with_default("/d".to_string()).unwrap();
    assert_eq!(d.method, "GET");
}

#[test]
fn route_headers() {
    let mut r = RouteInfo::new("/a".to_string(), "GET".to_string(), 200).unwrap();
    assert!(r.add_header("Content-Language".to_string(), "en".to_string()));
    assert!(!r.add_header("bad name".to_string(), "x".to_string()));
    assert!(!r.add_header("X-Ok".to_string(), "bad\u{7f}".to_string()));
    assert!(r.add_header("CONTENT-language".to_string(), "fr".to_string()));
    assert_eq!(r.headers.len(), 1);
    assert_eq!(r.headers.get("content-language"), Some("fr"));
    assert_eq!(r.headers.get("x-ok"), None);
}

#[test]
fn header_list_from_node() {
    let node = ConfigNode::Mapping(vec![
        (ConfigNode::Str("A".to_string()), ConfigNode::Str("1".to_string())),
        (ConfigNode::Str("B".to_string()), ConfigNode::Int(2)),
        (ConfigNode::Str("C".to_string()), ConfigNode::Str("tab\tok".to_string())),
    ]);
    let h = parse_headers(&node);
    assert_eq!(h.len(), 2);
    assert_eq!(h.entry(0), ("a", "1"));
    assert_eq!(h.entry(1), ("c", "tab\tok"));
    assert_eq!(parse_headers(&ConfigNode::Null).len(), 0);
    let mut l = HeaderList::new();
    l.insert("x".to_string(), "1".to_string());
    l.insert("x".to_string(), "2".to_string());
    assert_eq!(l.copy().get("x"), Some("2"));
}

#[test]
fn shard_counts() {
    let mut s = StatShard::new();
    s.record(200);
    s.record(404);
    s.record(200);
    assert_eq!(s.total(), 3);
    assert_eq!(s.entries(), &vec![(200u16, 2u64), (404, 1)]);
}

#[test]
fn snapshot_sums_all_workers() {
    let mut st = Statistics::new();
    let events = [(1u64, 200u16), (2, 200), (1, 404), (3, 405), (2, 200), (1, 200)];
    for (w, c) in events {
        st.record(w, c);
    }
    let snap = st.snapshot();
    let sum: u64 = snap.iter().map(|e| e.1).sum();
    assert_eq!(sum, events.len() as u64);
    assert_eq!(st.total(), 6);
    let mut sorted = snap.clone();
    sorted.sort();
    assert_eq!(sorted, vec![(200, 4), (404, 1), (405, 1)]);
}

#[test]
fn merging_shards() {
    let mut a = StatShard::new();
    let mut b = StatShard::new();
    a.record(500);
    b.record(500);
    b.record(301);
    let mut m = merge_shards(&vec![a, b]);
    m.sort();
    assert_eq!(m, vec![(301, 1), (500, 2)]);
    assert!(merge_shards(&Vec::new()).is_empty());
}

#[test]
fn connections_counter() {
    let mut st = Statistics::new();
    assert_eq!(st.total_connections(), 0);
    st.inc_connections();
    st.inc_connections();
    assert_eq!(st.total_connections(), 2);
}

#[test]
fn census_classifies_own_sockets() {
    let me = 42u32;
    let sock = |port: u16, state: Option<TcpState>, pids: Vec<u32>| SocketRecord { local_port: port, state, pids };
    let sockets = vec![
        sock(8088, Some(TcpState::SynReceived), vec![me]),
        sock(8088, Some(TcpState::Established), vec![7, me]),
        sock(8088, Some(TcpState::Established), vec![me]),
        sock(8088, Some(TcpState::TimeWait), vec![me]),
        sock(8088, Some(TcpState::CloseWait), vec![me]),
        sock(8088, Some(TcpState::Listen), vec![me]),
        sock(8088, Some(TcpState::Established), vec![7]),
        sock(9000, Some(TcpState::Established), vec![me]),
        sock(8088, None, vec![me]),
    ];
    let c = ConnectionSnapshot::sample(&sockets, 8088, me);
    assert_eq!(c, ConnectionSnapshot { connecting: 1, closing: 2, established: 2 });
    let empty = ConnectionSnapshot::sample(&Vec::new(), 8088, me);
    assert_eq!(empty, ConnectionSnapshot::empty());
}

#[test]
fn removing_headers() {
    let mut r = RouteInfo::new("/a".to_string(), "GET".to_string(), 200).unwrap();
    assert!(r.add_header("X-One".to_string(), "1".to_string()));
    assert!(r.add_header("X-Two".to_string(), "2".to_string()));
    assert_eq!(r.remove_header("x-ONE".to_string()), Some("1".to_string()));
    assert_eq!(r.remove_header("X-One".to_string()), None);
    assert_eq!(r.remove_header("bad name".to_string()), None);
    assert_eq!(r.headers.len(), 1);
    assert_eq!(r.headers.entry(0), ("x-two", "2"));
}

#[test]
fn header_name_limits() {
    let mut r = RouteInfo::with_default("/l".to_string()).unwrap();
    assert!(r.add_header("X".repeat(65535), "v".to_string()));
    assert!(!r.add_header("X".repeat(65536), "v".to_string()));
    assert!(!r.add_header(String::new(), "v".to_string()));
    assert!(r.add_header("A!#$%&'*+-.^_`|~9".to_string(), "v".to_string()));
    assert_eq!(r.headers.get("a!#$%&'*+-.^_`|~9"), Some("v"));
    assert!(!r.add_header("a:b".to_string(), "v".to_string()));
}

#[test]
fn method_tokens() {
    assert!(RouteInfo::new("/m".to_string(), "get".to_string(), 200).is_ok());
    assert!(RouteInfo::new("/m".to_string(), "M-SEARCH".to_string(), 200).is_ok());
    let e = RouteInfo::new("/m".to_string(), "GE#T".to_string(), 200).unwrap_err();
    assert_eq!(e.kind(), ErrorKind::UnsupportedMethod);
}
