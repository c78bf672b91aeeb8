use tls_responder::head::{is_head_complete, route_request, HeadError, Route};

fn route(head: &[u8]) -> Result<Route, HeadError> {
    route_request(&head.to_vec())
}

/// Feeds `head` into a buffer `chunk` bytes at a time and returns the
/// lengths at which the accumulated prefix was judged complete.
fn completion_points(head: &[u8], chunk: usize) -> Vec<usize> {
    let buf = head.to_vec();
    let mut points = Vec::new();
    let mut len = 0;
    while len < head.len() {
        len = (len + chunk).min(head.len());
        if is_head_complete(&buf, len) {
            points.push(len);
        }
    }
    points
}

#[test]
fn completion_is_reached_exactly_at_the_end_for_any_chunking() {
    let head = b"GET /json HTTP/1.1\r\n\r\n";
    for chunk in [1usize, 17, head.len()] {
        assert_eq!(completion_points(head, chunk), vec![head.len()], "chunk size {chunk}");
    }
}

#[test]
fn completion_cases() {
    let cases: &[(&[u8], bool)] = &[
        (b"", false),
        (b"\n", true),
        (b"\r\n", true),
        (b"\r", false),
        (b"GET / HTTP/1.1\r\n", false),
        (b"GET / HTTP/1.1\r\n\r", false),
        (b"GET / HTTP/1.1\r\n\r\n", true),
        (b"GET / HTTP/1.1\n\n", true),
        (b"GET / HTTP/1.1\n\r\n", true),
        (b"GET / HTTP/1.1\r\r\n", false),
    ];
    for (bytes, expected) in cases {
        let buf = bytes.to_vec();
        assert_eq!(is_head_complete(&buf, buf.len()), *expected, "{bytes:?}");
    }
}

#[test]
fn routes_for_the_three_targets() {
    assert_eq!(route(b"GET / HTTP/1.1\r\n\r\n"), Ok(Route::Index));
    assert_eq!(route(b"GET /json HTTP/1.1\r\n\r\n"), Ok(Route::Json));
    assert_eq!(route(b"GET /missing HTTP/1.1\r\n\r\n"), Ok(Route::Other));
    assert_eq!(route(b"GET /jsonx HTTP/1.1\r\n\r\n"), Ok(Route::Other));
}

#[test]
fn routes_with_bare_line_feeds() {
    assert_eq!(route(b"GET / HTTP/1.1\n\n"), Ok(Route::Index));
    assert_eq!(route(b"GET /json HTTP/1.1\n\n"), Ok(Route::Json));
}

#[test]
fn non_get_methods_are_rejected() {
    assert_eq!(route(b"POST / HTTP/1.1\r\n\r\n"), Err(HeadError::NotGet));
    assert_eq!(route(b"PUT /json HTTP/1.1\r\n\r\n"), Err(HeadError::NotGet));
    assert_eq!(route(b"get / HTTP/1.1\r\n\r\n"), Err(HeadError::NotGet));
    assert_eq!(route(b"\n"), Err(HeadError::NotGet));
}

#[test]
fn method_check_reads_only_the_first_three_bytes() {
    // Faithful quirk: any first token that begins with GET is accepted.
    assert_eq!(route(b"GETX / HTTP/1.1\r\n\r\n"), Ok(Route::Index));
}

#[test]
fn missing_path_token_is_rejected() {
    assert_eq!(route(b"GET\r\n\r\n"), Err(HeadError::NoPath));
    assert_eq!(route(b"GET HTTP/1.1\r\n\r\n"), Err(HeadError::NoPath));
}

#[test]
fn path_token_must_open_a_token() {
    // A slash inside a token does not start the target.
    assert_eq!(route(b"GET x/y /z HTTP/1.1\r\n\r\n"), Ok(Route::Other));
    // Consecutive spaces leave empty tokens behind; the target is still found.
    assert_eq!(route(b"GET  /json HTTP/1.1\r\n\r\n"), Ok(Route::Json));
}

#[test]
fn invalid_utf8_is_rejected() {
    assert_eq!(route(b"GET /\xff HTTP/1.1\r\n\r\n"), Err(HeadError::NotUtf8));
    assert_eq!(route(b"\xc3\x28 / HTTP/1.1\r\n\r\n"), Err(HeadError::NotUtf8));
}
