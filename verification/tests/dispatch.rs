use wardenclyffe::http::{
    ascii_bytes, bytes_eq, contains_token, eq_ignore_ascii_case, find_header, to_lower, Header,
    Request, Response, Version,
};
use wardenclyffe::server::{
    bad_request, handle_request, index_of, is_upgrade, not_found, ok, switching_protocols,
    without_trailing_slashes, Lookup, Outcome, Stage,
};

const KEY: &[u8] = b"dGhlIHNhbXBsZSBub25jZQ==";
const ACCEPT: &[u8] = b"s3pPLMBiTxaQ9kYGzzhZRbK+xOo=";

fn header(name: &[u8], value: &[u8]) -> Header {
    Header { name: name.to_vec(), value: value.to_vec() }
}

fn upgrade_request() -> Request {
    Request {
        method: b"GET".to_vec(),
        version: Version::Http11,
        path: b"/dev/ttyS0".to_vec(),
        headers: vec![
            header(b"host", b"example.org"),
            header(b"connection", b"Upgrade"),
            header(b"upgrade", b"websocket"),
            header(b"sec-websocket-version", b"13"),
            header(b"sec-websocket-key", KEY),
        ],
    }
}

fn plain_request(path: &[u8]) -> Request {
    Request {
        method: b"GET".to_vec(),
        version: Version::Http11,
        path: path.to_vec(),
        headers: vec![header(b"host", b"example.org")],
    }
}

fn set_header(req: &mut Request, name: &[u8], value: &[u8]) {
    for h in req.headers.iter_mut() {
        if h.name == name {
            h.value = value.to_vec();
        }
    }
}

fn drop_header(req: &mut Request, name: &[u8]) {
    req.headers.retain(|h| h.name != name);
}

fn status_of(outcome: &Outcome) -> Option<u16> {
    match outcome {
        Outcome::Upgrade(response) => Some(response.status),
        Outcome::Reply(response) => Some(response.status),
        Outcome::Resolve(_) => None,
    }
}

/// Answers every lookup from `files` and returns the response, with the paths
/// that were asked for.
fn serve(req: &Request, files: &[(&[u8], &[u8])]) -> (Response, Vec<Vec<u8>>) {
    let mut asked = Vec::new();
    let mut outcome = handle_request(req);
    loop {
        match outcome {
            Outcome::Upgrade(response) => return (response, asked),
            Outcome::Reply(response) => return (response, asked),
            Outcome::Resolve(lookup) => {
                let path = lookup.path();
                let found = files.iter().find(|(name, _)| *name == path.as_slice());
                asked.push(path);
                outcome = lookup.resolved(found.map(|(_, content)| content.to_vec()));
            }
        }
    }
}

#[test]
fn upgrade_request_is_answered_with_101_and_the_derived_key() {
    let req = upgrade_request();
    assert!(is_upgrade(&req));
    let outcome = handle_request(&req);
    let expected = Response {
        status: 101,
        version: Version::Http11,
        headers: vec![
            header(b"connection", b"Upgrade"),
            header(b"upgrade", b"websocket"),
            header(b"sec-websocket-accept", ACCEPT),
        ],
        body: vec![],
    };
    assert_eq!(outcome, Outcome::Upgrade(expected));
}

#[test]
fn accept_key_is_derived_from_the_key_and_not_the_key_itself() {
    let mut req = upgrade_request();
    set_header(&mut req, b"sec-websocket-key", b"x3JJHMbDL1EzLkh9GBhXDw==");
    match handle_request(&req) {
        Outcome::Upgrade(response) => {
            let accept = find_header(&response.headers, b"sec-websocket-accept").unwrap();
            assert_eq!(accept, &b"HSmrc0sMlYUkAGmm5OPpG2HaGWk=".to_vec());
            assert_ne!(accept, &b"x3JJHMbDL1EzLkh9GBhXDw==".to_vec());
        }
        other => panic!("expected an upgrade, got {:?}", other),
    }
}

#[test]
fn upgrade_response_keeps_the_request_version() {
    let mut req = upgrade_request();
    req.version = Version::Http2;
    match handle_request(&req) {
        Outcome::Upgrade(response) => {
            assert_eq!(response.status, 101);
            assert_eq!(response.version, Version::Http2);
        }
        other => panic!("expected an upgrade, got {:?}", other),
    }
}

#[test]
fn upgrade_needs_get() {
    let mut req = upgrade_request();
    req.method = b"POST".to_vec();
    assert!(!is_upgrade(&req));
    assert_ne!(status_of(&handle_request(&req)), Some(101));
    req.method = b"get".to_vec();
    assert!(!is_upgrade(&req));
}

#[test]
fn upgrade_needs_http11_or_later() {
    let mut req = upgrade_request();
    req.version = Version::Http10;
    assert!(!is_upgrade(&req));
    assert_ne!(status_of(&handle_request(&req)), Some(101));
    req.version = Version::Http09;
    assert!(!is_upgrade(&req));
    req.version = Version::Http3;
    assert!(is_upgrade(&req));
}

#[test]
fn upgrade_needs_the_connection_token() {
    let mut req = upgrade_request();
    set_header(&mut req, b"connection", b"keep-alive");
    assert!(!is_upgrade(&req));
    assert_ne!(status_of(&handle_request(&req)), Some(101));
    set_header(&mut req, b"connection", b"keep-alive, Upgrade");
    assert!(is_upgrade(&req));
    set_header(&mut req, b"connection", b"UPGRADE,keep-alive");
    assert!(is_upgrade(&req));
    set_header(&mut req, b"connection", b"upgraded");
    assert!(!is_upgrade(&req));
    drop_header(&mut req, b"connection");
    assert!(!is_upgrade(&req));
}

#[test]
fn upgrade_needs_the_websocket_protocol() {
    let mut req = upgrade_request();
    set_header(&mut req, b"upgrade", b"h2c");
    assert!(!is_upgrade(&req));
    assert_ne!(status_of(&handle_request(&req)), Some(101));
    set_header(&mut req, b"upgrade", b"WebSocket");
    assert!(is_upgrade(&req));
    set_header(&mut req, b"upgrade", b"websocket, h2c");
    assert!(!is_upgrade(&req));
    drop_header(&mut req, b"upgrade");
    assert!(!is_upgrade(&req));
}

#[test]
fn upgrade_needs_version_13() {
    let mut req = upgrade_request();
    set_header(&mut req, b"sec-websocket-version", b"12");
    assert!(!is_upgrade(&req));
    assert_ne!(status_of(&handle_request(&req)), Some(101));
    set_header(&mut req, b"sec-websocket-version", b"13 ");
    assert!(!is_upgrade(&req));
    drop_header(&mut req, b"sec-websocket-version");
    assert!(!is_upgrade(&req));
}

#[test]
fn upgrade_needs_a_key() {
    let mut req = upgrade_request();
    drop_header(&mut req, b"sec-websocket-key");
    assert!(!is_upgrade(&req));
    assert_eq!(
        handle_request(&req),
        Outcome::Resolve(Lookup { stage: Stage::Exact, relative: b"dev/ttyS0".to_vec() })
    );
}

#[test]
fn header_names_match_in_any_case_and_order() {
    let req = Request {
        method: b"GET".to_vec(),
        version: Version::Http11,
        path: b"/".to_vec(),
        headers: vec![
            header(b"Sec-WebSocket-Key", KEY),
            header(b"SEC-WEBSOCKET-VERSION", b"13"),
            header(b"Upgrade", b"websocket"),
            header(b"Connection", b"upgrade"),
        ],
    };
    assert!(is_upgrade(&req));
}

#[test]
fn first_header_of_a_name_counts() {
    let mut req = upgrade_request();
    req.headers.insert(0, header(b"Connection", b"close"));
    assert!(!is_upgrade(&req));
    let headers = vec![header(b"a", b"1"), header(b"A", b"2"), header(b"b", b"3")];
    assert_eq!(find_header(&headers, b"A"), Some(&b"1".to_vec()));
    assert_eq!(find_header(&headers, b"B"), Some(&b"3".to_vec()));
    assert_eq!(find_header(&headers, b"c"), None);
    assert_eq!(find_header(&Vec::new(), b"a"), None);
}

#[test]
fn path_that_is_not_absolute_is_a_bad_request() {
    for path in [&b"foo"[..], &b""[..], &b"foo/bar"[..], &b"*"[..], &b"http://host/"[..]] {
        let (response, asked) = serve(&plain_request(path), &[(&b"foo"[..], &b"x"[..])]);
        assert_eq!(response.status, 400);
        assert_eq!(response.body, b"Bad request".to_vec());
        assert_eq!(response.version, Version::Http11);
        assert!(response.headers.is_empty());
        assert!(asked.is_empty());
    }
    assert_eq!(handle_request(&plain_request(b"foo")), Outcome::Reply(bad_request()));
}

#[test]
fn root_is_served_from_index_html() {
    let files: &[(&[u8], &[u8])] = &[(b"index.html", b"<html>home</html>")];
    let (response, asked) = serve(&plain_request(b"/"), files);
    assert_eq!(response.status, 200);
    assert_eq!(response.body, b"<html>home</html>".to_vec());
    assert_eq!(asked, vec![b"".to_vec(), b"index.html".to_vec()]);
}

#[test]
fn missing_directory_is_not_found_by_its_name() {
    let files: &[(&[u8], &[u8])] = &[(b"index.html", b"home")];
    let (response, asked) = serve(&plain_request(b"/foo/bar/"), files);
    assert_eq!(response.status, 404);
    assert_eq!(response.body, b"File not found: foo/bar".to_vec());
    assert_eq!(asked, vec![b"foo/bar/".to_vec(), b"foo/bar/index.html".to_vec()]);
}

#[test]
fn exact_path_is_served_first() {
    let files: &[(&[u8], &[u8])] =
        &[(b"app.js", b"exact"), (b"app.js/index.html", b"index")];
    let (response, asked) = serve(&plain_request(b"/app.js"), files);
    assert_eq!(response, ok(b"exact".to_vec()));
    assert_eq!(asked, vec![b"app.js".to_vec()]);
}

#[test]
fn directory_is_served_from_its_index() {
    let files: &[(&[u8], &[u8])] = &[(b"docs/index.html", b"docs")];
    let (response, asked) = serve(&plain_request(b"/docs///"), files);
    assert_eq!(response.status, 200);
    assert_eq!(response.body, b"docs".to_vec());
    assert_eq!(asked, vec![b"docs///".to_vec(), b"docs/index.html".to_vec()]);
}

#[test]
fn request_that_misses_one_condition_is_served_as_content() {
    let mut req = upgrade_request();
    req.method = b"POST".to_vec();
    let files: &[(&[u8], &[u8])] = &[(b"dev/ttyS0", b"a file")];
    let (response, _) = serve(&req, files);
    assert_eq!(response.status, 200);
    assert_eq!(response.body, b"a file".to_vec());
}

#[test]
fn lookup_steps() {
    let exact = Lookup { stage: Stage::Exact, relative: b"a/b//".to_vec() };
    assert_eq!(exact.path(), b"a/b//".to_vec());
    let next = exact.clone().resolved(None);
    assert_eq!(next, Outcome::Resolve(Lookup { stage: Stage::Index, relative: b"a/b//".to_vec() }));
    assert_eq!(exact.resolved(Some(b"x".to_vec())), Outcome::Reply(ok(b"x".to_vec())));
    let index = Lookup { stage: Stage::Index, relative: b"a/b//".to_vec() };
    assert_eq!(index.path(), b"a/b/index.html".to_vec());
    assert_eq!(index.clone().resolved(Some(vec![])), Outcome::Reply(ok(vec![])));
    assert_eq!(index.resolved(None), Outcome::Reply(not_found(b"a/b".to_vec())));
}

#[test]
fn responses() {
    let switching = switching_protocols(Version::Http11, ACCEPT.to_vec());
    assert_eq!(switching.status, 101);
    assert_eq!(switching.headers.len(), 3);
    assert_eq!(switching.headers[2], header(b"sec-websocket-accept", ACCEPT));
    assert!(switching.body.is_empty());
    assert_eq!(bad_request().status, 400);
    assert_eq!(ok(b"abc".to_vec()).status, 200);
    assert_eq!(ok(b"abc".to_vec()).body, b"abc".to_vec());
    assert_eq!(not_found(b"x/y".to_vec()).status, 404);
    assert_eq!(not_found(b"x/y".to_vec()).body, b"File not found: x/y".to_vec());
    assert_eq!(not_found(vec![]).body, b"File not found: ".to_vec());
}

#[test]
fn trailing_slashes_are_stripped() {
    assert_eq!(without_trailing_slashes(b"a///"), b"a".to_vec());
    assert_eq!(without_trailing_slashes(b"a/b"), b"a/b".to_vec());
    assert_eq!(without_trailing_slashes(b"/a/"), b"/a".to_vec());
    assert_eq!(without_trailing_slashes(b"///"), b"".to_vec());
    assert_eq!(without_trailing_slashes(b""), b"".to_vec());
}

#[test]
fn index_documents() {
    assert_eq!(index_of(b"".to_vec()), b"index.html".to_vec());
    assert_eq!(index_of(b"a".to_vec()), b"a/index.html".to_vec());
    assert_eq!(index_of(b"a/b".to_vec()), b"a/b/index.html".to_vec());
}

#[test]
fn tokens_are_delimited_by_spaces_and_commas() {
    assert!(contains_token(b"upgrade", b"upgrade"));
    assert!(contains_token(b"Upgrade", b"upgrade"));
    assert!(contains_token(b"keep-alive, Upgrade", b"upgrade"));
    assert!(contains_token(b"keep-alive,upgrade", b"upgrade"));
    assert!(contains_token(b"upgrade keep-alive", b"upgrade"));
    assert!(contains_token(b" ,upgrade, ", b"upgrade"));
    assert!(!contains_token(b"upgrades", b"upgrade"));
    assert!(!contains_token(b"xupgrade", b"upgrade"));
    assert!(!contains_token(b"up grade", b"upgrade"));
    assert!(!contains_token(b"upgrade;q=1", b"upgrade"));
    assert!(!contains_token(b"", b"upgrade"));
    assert!(!contains_token(b"upgrad", b"upgrade"));
    assert!(!contains_token(b"a b", b"a b"));
    assert!(!contains_token(b"a,b", b"a,b"));
    assert!(contains_token(b"a,,b", b""));
    assert!(contains_token(b"", b""));
    assert!(!contains_token(b"ab", b""));
}

#[test]
fn ascii_case_is_ignored_and_nothing_else() {
    assert!(eq_ignore_ascii_case(b"WebSocket", b"websocket"));
    assert!(eq_ignore_ascii_case(b"", b""));
    assert!(!eq_ignore_ascii_case(b"websocket", b"websockets"));
    assert!(!eq_ignore_ascii_case(b"@", b"`"));
    assert!(!eq_ignore_ascii_case(b"[", b"{"));
    assert!(eq_ignore_ascii_case(b"AZ", b"az"));
    assert_eq!(to_lower(b'A'), b'a');
    assert_eq!(to_lower(b'Z'), b'z');
    assert_eq!(to_lower(b'a'), b'a');
    assert_eq!(to_lower(b'@'), b'@');
    assert_eq!(to_lower(b'['), b'[');
    assert_eq!(to_lower(0xc4), 0xc4);
    assert_eq!(ascii_bytes("GET"), b"GET");
    assert_eq!(ascii_bytes(""), b"");
    assert!(bytes_eq(b"13", b"13"));
    assert!(!bytes_eq(b"13", b"13 "));
    assert!(!bytes_eq(b"GET", b"get"));
}

#[test]
fn versions_are_ordered() {
    assert!(!Version::Http09.at_least_http11());
    assert!(!Version::Http10.at_least_http11());
    assert!(Version::Http11.at_least_http11());
    assert!(Version::Http2.at_least_http11());
    assert!(Version::Http3.at_least_http11());
}
