use axum::http::{HeaderMap, HeaderName, HeaderValue};
use rpc_bridge::headers::value_text;
use rpc_bridge::proxy::{
    handle_proxy, plan_proxy, proxy_client, proxy_failed, proxy_response, proxy_response_failed,
    return_headers, trust, ExtraRoots,
};
use rpc_bridge::reply::{Body, Reply};
use rpc_bridge::upload::{
    begin_upload, is_stale, plan_upload, upload_base, valid_upload_token, Upload, UploadAction,
    UploadEvent, UploadPlan, MAX_UPLOAD_BYTES,
};
use serde_json::Value;

const PEM: &[u8] = b"-----BEGIN CERTIFICATE-----
MIIBtjCCAVugAwIBAgITBmyf1XSXNmY/Owua2eiedgPySjAKBggqhkjOPQQDAjA5
MQswCQYDVQQGEwJVUzEPMA0GA1UEChMGQW1hem9uMRkwFwYDVQQDExBBbWF6b24g
Um9vdCBDQSAzMB4XDTE1MDUyNjAwMDAwMFoXDTQwMDUyNjAwMDAwMFowOTELMAkG
A1UEBhMCVVMxDzANBgNVBAoTBkFtYXpvbjEZMBcGA1UEAxMQQW1hem9uIFJvb3Qg
Q0EgMzBZMBMGByqGSM49AgEGCCqGSM49AwEHA0IABCmXp8ZBf8ANm+gBG1bG8lKl
ui2yEujSLtf6ycXYqm0fc4E7O5hrOXwzpcVOho6AF2hiRVd9RFgdszflZwjrZt6j
QjBAMA8GA1UdEwEB/wQFMAMBAf8wDgYDVR0PAQH/BAQDAgGGMB0GA1UdDgQWBBSr
ttvXBp43rDCGB5Fwx5zEGbF4wDAKBggqhkjOPQQDAgNJADBGAiEA4IWSoxe3jfkr
BqWTrBqYaGFy+uGh0PsceGCmQ5nFuMQCIQCcAu/xlJyzlvnrxir4tiz+OpAUFteM
YyRIHN8wfdVoOw==
-----END CERTIFICATE-----
";

fn error(reply: Reply) -> (u16, String) {
    match reply.body {
        Body::Json(value) => (reply.status, value["error"].as_str().unwrap().to_string()),
        Body::File { .. } => panic!("no JSON"),
    }
}

fn headers(list: &[(&str, &[u8])]) -> HeaderMap {
    let mut map = HeaderMap::new();
    for (name, value) in list {
        map.append(
            HeaderName::from_bytes(name.as_bytes()).unwrap(),
            HeaderValue::from_bytes(value).unwrap(),
        );
    }
    map
}

fn sorted(mut list: Vec<(String, String)>) -> Vec<(String, String)> {
    list.sort();
    list
}

fn pair(name: &str, value: &str) -> (String, String) {
    (name.to_string(), value.to_string())
}

#[test]
fn header_values_are_visible_ascii() {
    assert_eq!(value_text(&b"a b\t~".to_vec()), Some("a b\t~".to_string()));
    assert_eq!(value_text(&vec![]), Some(String::new()));
    assert_eq!(value_text(&vec![127]), None);
    assert_eq!(value_text(&"é".as_bytes().to_vec()), None);
    for b in 0..=255u8 {
        if let Ok(value) = HeaderValue::from_bytes(&[b]) {
            let expected = value.to_str().ok().map(str::to_string);
            assert_eq!(value_text(&vec![b]), expected);
        }
    }
}

#[test]
fn requests_are_forwarded_without_the_skipped_headers() {
    let map = headers(&[
        ("X-LLMWiki-Target-URL", b"https://api.example/v1?x=1"),
        ("Host", b"bridge"),
        ("Cookie", b"session=1"),
        ("Connection", b"close"),
        ("Content-Length", b"3"),
        ("Accept-Encoding", b"br"),
        ("Origin", b"http://x"),
        ("Referer", b"http://x/y"),
        ("Authorization", b"Bearer t"),
        ("Accept", b"a"),
        ("Accept", b"b"),
        ("X-Name", "é".as_bytes()),
    ]);
    let request = handle_proxy("PATCH", &map, 3).ok().unwrap();
    assert_eq!(request.method, "PATCH");
    assert_eq!(request.target, "https://api.example/v1?x=1");
    assert!(request.with_body);
    let accepts: Vec<&str> =
        request.headers.iter().filter(|h| h.0 == "accept").map(|h| h.1.as_str()).collect();
    assert_eq!(accepts, vec!["a", "b"]);
    assert_eq!(
        sorted(request.headers),
        vec![pair("accept", "a"), pair("accept", "b"), pair("authorization", "Bearer t")]
    );
}

#[test]
fn an_empty_body_is_not_sent() {
    let map = headers(&[("x-llmwiki-target-url", b"http://a")]);
    let request = handle_proxy("GET", &map, 0).ok().unwrap();
    assert!(!request.with_body);
    assert!(request.headers.is_empty());
}

#[test]
fn the_first_target_counts() {
    let map = headers(&[
        ("x-llmwiki-target-url", b"http://first"),
        ("x-llmwiki-target-url", b"http://second"),
    ]);
    assert_eq!(handle_proxy("GET", &map, 0).ok().unwrap().target, "http://first");
}

#[test]
fn a_target_is_needed() {
    let missing = (400, "Missing x-llmwiki-target-url header".to_string());
    assert_eq!(error(handle_proxy("GET", &headers(&[]), 0).err().unwrap()), missing);
    let map = headers(&[("x-llmwiki-target-url", "http://é".as_bytes())]);
    assert_eq!(error(handle_proxy("GET", &map, 0).err().unwrap()), missing);
}

#[test]
fn the_target_is_an_http_url() {
    for target in ["ftp://x", "file:///etc/passwd", "", "HTTP://x", "http:/x", " http://x"] {
        let plan = plan_proxy("GET", Some(target.as_bytes().to_vec()), &vec![], 0);
        let reply = plan.err().unwrap();
        assert_eq!(error(reply), (400, "Target must be an http(s) URL".to_string()), "{target}");
    }
    assert!(plan_proxy("GET", Some(b"http://".to_vec()), &vec![], 0).is_ok());
}

#[test]
fn methods_are_tokens() {
    let target = || Some(b"http://x".to_vec());
    for method in ["GET", "get", "PROPFIND", "M-SEARCH", "!#$%&'*+-.^_`|~09", &"X".repeat(40)] {
        let request = plan_proxy(method, target(), &vec![], 0).ok().unwrap();
        assert_eq!(request.method, method);
    }
    for method in ["", "GE T", "GET\n", "GÉT", "a/b", "(x)"] {
        let reply = plan_proxy(method, target(), &vec![], 0).err().unwrap();
        assert_eq!(error(reply), (405, "Unsupported method".to_string()), "{method}");
    }
}

#[test]
fn answers_come_back_without_the_skipped_headers() {
    let map = headers(&[
        ("Transfer-Encoding", b"chunked"),
        ("Connection", b"keep-alive"),
        ("Content-Length", b"9"),
        ("Set-Cookie", b"a=b"),
        ("Content-Type", b"text/event-stream"),
        ("X-Raw", b"\xff"),
    ]);
    let mut response = proxy_response(206, &map);
    response.headers.sort();
    assert_eq!(response.status, 206);
    assert_eq!(
        response.headers,
        vec![
            ("content-type".to_string(), b"text/event-stream".to_vec()),
            ("x-raw".to_string(), b"\xff".to_vec()),
        ]
    );
    let listed = vec![
        ("SET-COOKIE".to_string(), b"1".to_vec()),
        ("b".to_string(), b"2".to_vec()),
        ("a".to_string(), b"3".to_vec()),
    ];
    assert_eq!(return_headers(listed.clone()), listed[1..].to_vec());
}

#[test]
fn failures_name_their_causes() {
    let causes = vec!["dns error".to_string(), "no such host".to_string()];
    let text = "Proxy request failed: error sending request: dns error: no such host";
    assert_eq!(error(proxy_failed("error sending request", &causes)), (502, text.to_string()));
    let text = "Proxy request failed: timeout";
    assert_eq!(error(proxy_failed("timeout", &vec![])), (502, text.to_string()));
    let text = "Proxy response error: bad header";
    assert_eq!(error(proxy_response_failed("bad header")), (500, text.to_string()));
}

#[test]
fn extra_roots_are_loaded() {
    let (builder, roots) = proxy_client(Some(PEM));
    assert!(matches!(roots, ExtraRoots::Loaded));
    let shown = format!("{builder:?}");
    assert!(shown.contains("connect_timeout: 10s"), "{shown}");
    assert!(builder.build().is_ok());
    let (_, roots) = proxy_client(Some(b""));
    assert!(matches!(roots, ExtraRoots::Loaded));
}

#[test]
fn added_roots_are_used() {
    let bad = reqwest::Certificate::from_der(b"no certificate").unwrap();
    let (builder, _) = proxy_client(None);
    assert!(trust(builder, vec![bad]).build().is_err());
    let (builder, _) = proxy_client(None);
    assert!(trust(builder, vec![]).build().is_ok());
}

#[test]
fn damaged_roots_add_nothing() {
    let (builder, roots) = proxy_client(Some(b"-----BEGIN CERTIFICATE-----\n@@@\n"));
    match roots {
        ExtraRoots::Invalid(message) => assert_eq!(message, "builder error"),
        _ => panic!(),
    }
    assert!(builder.build().is_ok());
    let (_, roots) = proxy_client(None);
    assert!(matches!(roots, ExtraRoots::NotConfigured));
}

#[test]
fn base_directory_of_uploads() {
    let some = |s: &str| Some(s.to_string());
    assert_eq!(upload_base(some("/up"), some("/home/x"), "/tmp"), "/up");
    assert_eq!(upload_base(None, some("/home/x"), "/tmp"), "/home/x/.llm-wiki-web-uploads");
    assert_eq!(upload_base(None, some("/"), "/tmp"), "/.llm-wiki-web-uploads");
    assert_eq!(upload_base(None, None, "/tmp"), "/tmp/.llm-wiki-web-uploads");
    assert_eq!(upload_base(some(""), some("/home/x"), "/tmp"), "");
}

#[test]
fn upload_tokens() {
    for token in ["a", "A-9", "-", &"x".repeat(64)] {
        assert!(valid_upload_token(token), "{token}");
    }
    for token in ["", "a_b", "a.b", "..", "a/b", "é", " a", &"x".repeat(65)] {
        assert!(!valid_upload_token(token), "{token}");
    }
}

fn bytes(text: &str) -> Option<Vec<u8>> {
    Some(text.as_bytes().to_vec())
}

#[test]
fn uploads_land_in_their_session() {
    let plan = plan_upload(bytes("tok-1"), bytes("a%2F%E6%96%87+b.txt"), "/up").ok().unwrap();
    assert_eq!(plan.root, "/up/tok-1");
    assert_eq!(plan.dest, "/up/tok-1/a/文 b.txt");
    assert_eq!(plan.parent, "/up/tok-1/a");
    let plan = plan_upload(bytes("t"), bytes("x"), "").ok().unwrap();
    assert_eq!(plan.root, "t");
    assert_eq!(plan.dest, "t/x");
    assert_eq!(plan.parent, "t");
    let plan = plan_upload(bytes("t"), bytes("x//./y"), "/up/").ok().unwrap();
    assert_eq!(plan.dest, "/up/t/x/y");
    let std = std::path::Path::new(&plan.dest).parent().unwrap();
    assert_eq!(plan.parent, std.to_str().unwrap());
}

#[test]
fn sessions_and_files_are_kept_apart() {
    let dest = |t: &str, n: &str| plan_upload(bytes(t), bytes(n), "/up").ok().unwrap().dest;
    assert_ne!(dest("a", "x"), dest("b", "x"));
    assert_ne!(dest("a", "x"), dest("a", "y"));
    assert_ne!(dest("a", "x/y"), dest("a", "xy"));
    assert_eq!(dest("a", "x//y"), dest("a", "x/y"));
}

#[test]
fn the_headers_of_an_upload_are_read() {
    let map = headers(&[
        ("X-LLMWiki-Upload-Dir", b"tok"),
        ("X-LLMWiki-Upload-Name", b"my%20file"),
    ]);
    let plan = begin_upload(&map, "/b").ok().unwrap();
    assert_eq!(plan.dest, "/b/tok/my file");
}

#[test]
fn uploads_without_a_token_are_refused() {
    let expected = (400, "Missing or invalid x-llmwiki-upload-dir".to_string());
    assert_eq!(error(begin_upload(&headers(&[]), "/b").err().unwrap()), expected);
    for token in [None, bytes(""), bytes("../x"), bytes("é")] {
        assert_eq!(error(plan_upload(token, bytes("f"), "/b").err().unwrap()), expected);
    }
}

#[test]
fn uploads_without_a_name_are_refused() {
    let expected = (400, "Missing or invalid x-llmwiki-upload-name".to_string());
    let map = headers(&[("x-llmwiki-upload-dir", b"t")]);
    assert_eq!(error(begin_upload(&map, "/b").err().unwrap()), expected);
    for name in ["", "%2e%2e%2fx", "%2Fetc", "a%", "%ff", "é"] {
        let reply = plan_upload(bytes("t"), bytes(name), "/b").err().unwrap();
        assert_eq!(error(reply), expected, "{name}");
    }
}

#[test]
fn old_directories_are_stale() {
    assert!(!is_stale(None));
    assert!(!is_stale(Some((0, 0))));
    assert!(!is_stale(Some((86400, 0))));
    assert!(is_stale(Some((86400, 1))));
    assert!(is_stale(Some((86401, 0))));
    assert!(is_stale(Some((u64::MAX, 999_999_999))));
}

fn upload() -> Upload {
    Upload::new(UploadPlan {
        root: "/b/t".to_string(),
        dest: "/b/t/f".to_string(),
        parent: "/b/t".to_string(),
    })
}

fn response(action: UploadAction) -> Reply {
    match action {
        UploadAction::Respond(reply) => reply,
        _ => panic!("no reply"),
    }
}

fn discarded(action: UploadAction) -> Reply {
    match action {
        UploadAction::Discard(reply) => reply,
        _ => panic!("the file is kept"),
    }
}

#[test]
fn an_upload_that_works() {
    let mut u = upload();
    assert!(matches!(u.step(UploadEvent::DirReady), UploadAction::CreateFile));
    assert!(matches!(u.step(UploadEvent::FileReady), UploadAction::ReadChunk));
    assert!(matches!(u.step(UploadEvent::Chunk(5)), UploadAction::WriteChunk));
    assert!(matches!(u.step(UploadEvent::Written), UploadAction::ReadChunk));
    assert!(matches!(u.step(UploadEvent::Chunk(7)), UploadAction::WriteChunk));
    assert!(matches!(u.step(UploadEvent::Written), UploadAction::ReadChunk));
    assert_eq!(u.written, 12);
    assert!(matches!(u.step(UploadEvent::Ended), UploadAction::Flush));
    let reply = response(u.step(UploadEvent::Flushed));
    assert_eq!(reply.status, 200);
    let expected: Value =
        serde_json::from_str("{\"path\": \"/b/t/f\", \"root\": \"/b/t\"}").unwrap();
    match reply.body {
        Body::Json(value) => assert_eq!(value, expected),
        Body::File { .. } => panic!(),
    }
}

#[test]
fn the_limit_is_on_the_whole_file() {
    assert_eq!(MAX_UPLOAD_BYTES, 2147483648);
    let mut u = upload();
    assert!(matches!(u.step(UploadEvent::Chunk(2147483647)), UploadAction::WriteChunk));
    assert!(matches!(u.step(UploadEvent::Chunk(1)), UploadAction::WriteChunk));
    assert!(matches!(u.step(UploadEvent::Chunk(0)), UploadAction::WriteChunk));
    let reply = discarded(u.step(UploadEvent::Chunk(1)));
    assert_eq!(error(reply), (413, "File exceeds upload size limit".to_string()));
    assert_eq!(u.written, MAX_UPLOAD_BYTES);
    let mut u = upload();
    let reply = discarded(u.step(UploadEvent::Chunk(usize::MAX)));
    assert_eq!(error(reply).0, 413);
}

#[test]
fn an_upload_that_fails() {
    let e = || "e".to_string();
    let mut u = upload();
    let reply = response(u.step(UploadEvent::DirFailed(e())));
    assert_eq!(error(reply), (500, "Cannot create staging dir: e".to_string()));
    let reply = response(u.step(UploadEvent::FileFailed(e())));
    assert_eq!(error(reply), (500, "Cannot create file: e".to_string()));
    let reply = discarded(u.step(UploadEvent::StreamFailed(e())));
    assert_eq!(error(reply), (400, "Upload stream error: e".to_string()));
    let reply = discarded(u.step(UploadEvent::WriteFailed(e())));
    assert_eq!(error(reply), (500, "Upload failed: e".to_string()));
    let reply = response(u.step(UploadEvent::FlushFailed(e())));
    assert_eq!(error(reply), (500, "Upload flush failed: e".to_string()));
    assert_eq!(u.written, 0);
}

/// Runs an upload of `chunks` against a file in memory, and hands back the reply.
fn take_in(file: &mut Option<Vec<u8>>, chunks: &[&[u8]], broken: bool) -> Reply {
    let mut u = upload();
    let mut left = chunks.iter();
    let mut chunk: &[u8] = &[];
    let mut event = UploadEvent::DirReady;
    loop {
        event = match u.step(event) {
            UploadAction::CreateFile => {
                *file = Some(Vec::new());
                UploadEvent::FileReady
            }
            UploadAction::ReadChunk => match left.next() {
                Some(next) => {
                    chunk = next;
                    UploadEvent::Chunk(chunk.len())
                }
                None if broken => UploadEvent::StreamFailed("gone".to_string()),
                None => UploadEvent::Ended,
            },
            UploadAction::WriteChunk => {
                file.as_mut().unwrap().extend_from_slice(chunk);
                UploadEvent::Written
            }
            UploadAction::Flush => UploadEvent::Flushed,
            UploadAction::Respond(reply) => return reply,
            UploadAction::Discard(reply) => {
                *file = None;
                return reply;
            }
        };
    }
}

#[test]
fn a_later_upload_replaces_an_earlier_one() {
    let mut file = None;
    let earlier = take_in(&mut file, &[b"a longer ", b"", b"text"], false);
    assert_eq!(earlier.status, 200);
    assert_eq!(file.as_deref(), Some(&b"a longer text"[..]));
    let later = take_in(&mut file, &[b"short"], false);
    assert_eq!(later.status, 200);
    assert_eq!(file.as_deref(), Some(&b"short"[..]));
    match (earlier.body, later.body) {
        (Body::Json(a), Body::Json(b)) => assert_eq!(a, b),
        _ => panic!("no JSON"),
    }
    assert_eq!(take_in(&mut file, &[], false).status, 200);
    assert_eq!(file.as_deref(), Some(&b""[..]));
}

#[test]
fn a_broken_upload_is_removed() {
    let mut file = Some(b"before".to_vec());
    let reply = take_in(&mut file, &[b"some"], true);
    assert_eq!(error(reply), (400, "Upload stream error: gone".to_string()));
    assert_eq!(file, None);
}

/// What becomes of a body cut into chunks of the given sizes: the status of the reply, and whether
/// the file is kept.
fn outcome_by_size(sizes: &[usize]) -> (u16, bool) {
    let mut u = upload();
    for size in sizes {
        if let UploadAction::Discard(reply) = u.step(UploadEvent::Chunk(*size)) {
            return (reply.status, false);
        }
        assert!(matches!(u.step(UploadEvent::Written), UploadAction::ReadChunk));
    }
    assert!(matches!(u.step(UploadEvent::Ended), UploadAction::Flush));
    (response(u.step(UploadEvent::Flushed)).status, true)
}

#[test]
fn the_size_of_the_body_alone_decides() {
    let limit: usize = 2147483648;
    assert_eq!(outcome_by_size(&[]), (200, true));
    assert_eq!(outcome_by_size(&[limit]), (200, true));
    assert_eq!(outcome_by_size(&[1, limit - 1]), (200, true));
    assert_eq!(outcome_by_size(&[limit / 2, 0, limit / 2]), (200, true));
    assert_eq!(outcome_by_size(&[limit + 1]), (413, false));
    assert_eq!(outcome_by_size(&[limit, 1]), (413, false));
    assert_eq!(outcome_by_size(&[1, limit, 5, 5]), (413, false));
}
