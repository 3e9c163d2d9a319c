use static_server::access_log::{begin_exchange, close_exchange, AccessLog, Intake};
use static_server::config::{ServerConfig, DEFAULT_PORT};
use static_server::resolve::{relative_path, resolve, Target};
use static_server::response::{serve, FileLookup, Reply};

fn request(path: &str, lookup: FileLookup) -> Reply {
    serve(resolve(path), lookup)
}

fn found(bytes: &[u8]) -> FileLookup {
    FileLookup::Found(bytes.to_vec())
}

#[test]
fn scenario_index_style_and_missing() {
    let root = request("/", found(b"<h1>hi</h1>"));
    assert_eq!(root.status, 200);
    assert_eq!(root.content_type.as_deref(), Some("text/html"));
    assert_eq!(root.body, b"<h1>hi</h1>".to_vec());

    let style = request("/style.css", found(b"body{}"));
    assert_eq!(style.status, 200);
    assert_eq!(style.content_type.as_deref(), Some("text/css"));
    assert_eq!(style.body, b"body{}".to_vec());

    let missing = request("/missing.txt", FileLookup::Missing);
    assert_eq!(missing.status, 404);
    assert_eq!(missing.content_type, None);
    assert!(missing.body.is_empty());
}

#[test]
fn missing_file_is_not_found_for_any_path() {
    for p in ["/", "/a", "/a/b/c.txt", "", "/weird name?.js", "/é.html", "/../x"] {
        let r = request(p, FileLookup::Missing);
        assert_eq!(r.status, 404, "path {:?}", p);
        assert_eq!(r.content_type, None);
        assert!(r.body.is_empty());
    }
}

#[test]
fn root_is_index_document() {
    let a = resolve("/").expect("root resolves");
    let b = resolve("/index.html").expect("index resolves");
    assert_eq!(a.rel_path, "index.html");
    assert_eq!(a.rel_path, b.rel_path);
    assert_eq!(a.content_type, b.content_type);
    let ra = request("/", found(b"<p>x</p>"));
    let rb = request("/index.html", found(b"<p>x</p>"));
    assert_eq!(ra.status, rb.status);
    assert_eq!(ra.content_type, rb.content_type);
    assert_eq!(ra.body, rb.body);
}

#[test]
fn found_file_is_served_with_its_type() {
    let bytes: Vec<u8> = vec![0x89, b'P', b'N', b'G', 0, 255, 7];
    let r = request("/img/logo.png", FileLookup::Found(bytes.clone()));
    assert_eq!(r.status, 200);
    assert_eq!(r.content_type.as_deref(), Some("image/png"));
    assert_eq!(r.body, bytes);

    let js = request("/app.js", found(b"let a;"));
    assert_eq!(js.content_type.as_deref(), Some("text/javascript"));
}

#[test]
fn unknown_or_absent_extension_is_plain_text() {
    let none = request("/README", found(b"read me"));
    assert_eq!(none.status, 200);
    assert_eq!(none.content_type.as_deref(), Some("text/plain"));
    let unknown = request("/data.zzqx", found(b"?"));
    assert_eq!(unknown.content_type.as_deref(), Some("text/plain"));
}

#[test]
fn empty_file_is_served_empty() {
    let r = request("/empty.txt", found(b""));
    assert_eq!(r.status, 200);
    assert_eq!(r.content_type.as_deref(), Some("text/plain"));
    assert!(r.body.is_empty());
}

#[test]
fn unreadable_file_is_server_error() {
    let r = request("/dir", FileLookup::Unreadable);
    assert_eq!(r.status, 500);
    assert_eq!(r.content_type, None);
    assert!(r.body.is_empty());
}

#[test]
fn only_one_leading_slash_is_taken_off() {
    assert_eq!(relative_path("/a/b.txt"), "a/b.txt");
    assert_eq!(relative_path("a/b.txt"), "a/b.txt");
    assert_eq!(relative_path("//a"), "/a");
    assert_eq!(relative_path(""), "index.html");
    assert_eq!(relative_path("/"), "index.html");
}

#[test]
fn paths_leaving_the_root_resolve_to_nothing() {
    assert!(resolve("/../secret").is_none());
    assert!(resolve("/a/../../secret").is_none());
    assert!(resolve("/a/..").is_none());
    assert!(resolve("//etc/passwd").is_none());
    let r = request("/../secret", found(b"secret"));
    assert_eq!(r.status, 404);
    assert!(r.body.is_empty());
}

#[test]
fn dots_inside_names_stay_under_the_root() {
    let t: Target = resolve("/a..b/..c/x...txt").expect("no parent segment");
    assert_eq!(t.rel_path, "a..b/..c/x...txt");
    assert!(resolve("/./a.txt").is_some());
}

fn open(uri: &str, method: &str, body: &[u8]) -> Intake {
    begin_exchange(uri.to_string(), method.to_string(), body.to_vec())
}

#[test]
fn record_carries_the_returned_status() {
    let Intake::Forward { log, body } = open("/style.css", "GET", b"") else {
        panic!("empty body is text");
    };
    assert_eq!(log.status_code, 200);
    assert!(body.is_empty());
    let reply = request("/style.css", FileLookup::Missing);
    let done: AccessLog = close_exchange(log, reply.status);
    assert_eq!(done.status_code, 404);
    assert_eq!(done.uri, "/style.css");
    assert_eq!(done.method, "GET");
    assert_eq!(done.req_body, "");
}

#[test]
fn record_status_replaces_only_the_status() {
    let Intake::Forward { mut log, .. } = open("/x", "POST", b"abc") else {
        panic!("ascii body is text");
    };
    log.record_status(500);
    assert_eq!(log.status_code, 500);
    assert_eq!(log.uri, "/x");
    assert_eq!(log.method, "POST");
    assert_eq!(log.req_body, "abc");
}

fn echo_handler(body: &[u8]) -> (u16, Vec<u8>) {
    (200, body.to_vec())
}

#[test]
fn body_passes_through_to_the_handler() {
    let sent = "héllo wörld".as_bytes();
    let Intake::Forward { log, body } = open("/echo", "POST", sent) else {
        panic!("utf-8 body is text");
    };
    assert_eq!(log.req_body, "héllo wörld");
    let (status, seen) = echo_handler(&body);
    assert_eq!(seen, sent.to_vec());
    let done = close_exchange(log, status);
    assert_eq!(done.status_code, 200);
}

#[test]
fn non_utf8_body_is_bad_request() {
    match open("/", "POST", &[0xff, 0xfe, b'a']) {
        Intake::Reject { log } => {
            assert_eq!(log.status_code, 400);
            assert_eq!(log.req_body, "");
            assert_eq!(log.uri, "/");
            assert_eq!(log.method, "POST");
        }
        Intake::Forward { .. } => panic!("invalid UTF-8 was accepted"),
    }
}

#[test]
fn config_defaults_to_port_3000() {
    let c = ServerConfig::new("public".to_string(), None);
    assert_eq!(c.port, 3000);
    assert_eq!(DEFAULT_PORT, 3000);
    assert_eq!(c.static_dir, "public");
    let d = ServerConfig::new("www".to_string(), Some(8080));
    assert_eq!(d.port, 8080);
}
