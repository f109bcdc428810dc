use http_logger::handler::{handle, Dispatch};
use http_logger::request::{request_log, IncomingRequest};
use http_logger::response::{serve_file, Reply, STATUS_NOT_FOUND, STATUS_OK};
use http_logger::target::file_path_for;

fn request(method: &str, path: &str, headers: Vec<(String, Vec<u8>)>, body: &[u8]) -> IncomingRequest {
    IncomingRequest {
        method: method.to_string(),
        uri: path.to_string(),
        path: path.to_string(),
        headers,
        body: body.to_vec(),
    }
}

fn reply_of(d: Dispatch) -> Reply {
    match d {
        Dispatch::Respond(r) => r,
        Dispatch::ReadFile(name) => panic!("unexpected file read of {}", name),
    }
}

fn file_of(d: Dispatch) -> String {
    match d {
        Dispatch::ReadFile(name) => name,
        Dispatch::Respond(r) => panic!("unexpected reply with status {}", r.status),
    }
}

#[test]
fn empty_body_logs_no_body() {
    let req = request("GET", "/", vec![], b"");
    let rec = request_log(&req);
    assert!(rec.body.is_none());
    assert_eq!(rec.method, "GET");
    assert_eq!(rec.uri, "/");
}

#[test]
fn utf8_body_logged_verbatim() {
    let req = request("POST", "/x", vec![], "héllo wörld".as_bytes());
    let rec = request_log(&req);
    assert_eq!(rec.body.as_deref(), Some("héllo wörld"));
}

#[test]
fn invalid_utf8_body_logged_lossily() {
    let req = request("POST", "/x", vec![], &[0x61, 0xFF, 0x62]);
    let rec = request_log(&req);
    assert_eq!(rec.body.as_deref(), Some("a\u{FFFD}b"));
}

#[test]
fn headers_logged_in_order_with_duplicates() {
    let headers = vec![
        ("accept".to_string(), b"*/*".to_vec()),
        ("x-tag".to_string(), b"one".to_vec()),
        ("x-tag".to_string(), vec![0x74, 0xC3, 0x28]),
    ];
    let req = request("GET", "/", headers, b"");
    let rec = request_log(&req);
    assert_eq!(
        rec.headers,
        vec![
            ("accept".to_string(), "*/*".to_string()),
            ("x-tag".to_string(), "one".to_string()),
            ("x-tag".to_string(), "t\u{FFFD}(".to_string()),
        ]
    );
}

#[test]
fn no_root_any_request_gets_ok() {
    for (method, path) in [("GET", "/"), ("POST", "/a/b?c=d"), ("DELETE", ""), ("PUT", "//x")] {
        let headers = vec![("host".to_string(), b"example".to_vec())];
        let req = request(method, path, headers, b"payload");
        let (rec, next) = handle(&req, false);
        assert_eq!(rec.body.as_deref(), Some("payload"));
        let reply = reply_of(next);
        assert_eq!(reply.status, 200);
        assert_eq!(reply.body, b"OK\n".to_vec());
    }
}

#[test]
fn root_path_reads_index() {
    let (_, next) = handle(&request("GET", "/", vec![], b""), true);
    assert_eq!(file_of(next), "index.html");
    let (_, next) = handle(&request("GET", "", vec![], b""), true);
    assert_eq!(file_of(next), "index.html");
}

#[test]
fn index_contents_served() {
    let contents = b"<h1>home</h1>".to_vec();
    let reply = serve_file(Some(contents.clone()));
    assert_eq!(reply.status, STATUS_OK);
    assert_eq!(reply.body, contents);
}

#[test]
fn named_file_read_and_served() {
    let (_, next) = handle(&request("GET", "/foo.txt", vec![], b""), true);
    assert_eq!(file_of(next), "foo.txt");
    let reply = serve_file(Some(b"X".to_vec()));
    assert_eq!(reply.status, 200);
    assert_eq!(reply.body, b"X".to_vec());
}

#[test]
fn missing_file_not_found() {
    let reply = serve_file(None);
    assert_eq!(reply.status, STATUS_NOT_FOUND);
    assert_eq!(reply.status, 404);
    assert_eq!(reply.body, b"Not Found".to_vec());
}

#[test]
fn only_first_slash_removed() {
    assert_eq!(file_path_for("//etc/passwd"), "/etc/passwd");
    assert_eq!(file_path_for("/a/b.txt"), "a/b.txt");
    assert_eq!(file_path_for("plain"), "plain");
    assert_eq!(file_path_for("/../up"), "../up");
    assert_eq!(file_path_for("/é"), "é");
}

#[test]
fn repeated_get_identical() {
    let first = serve_file(Some(vec![1, 2, 3]));
    let second = serve_file(Some(vec![1, 2, 3]));
    assert_eq!(first.status, second.status);
    assert_eq!(first.body, second.body);
    let (_, a) = handle(&request("GET", "/f", vec![], b""), true);
    let (_, b) = handle(&request("GET", "/f", vec![], b""), true);
    assert_eq!(file_of(a), file_of(b));
}

#[test]
fn fixed_replies() {
    let ok = Reply::ok();
    assert_eq!((ok.status, ok.body), (200, b"OK\n".to_vec()));
    let nf = Reply::not_found();
    assert_eq!((nf.status, nf.body), (404, b"Not Found".to_vec()));
}
