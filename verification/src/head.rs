//! Request-head framing and routing.
//!
//! A request head accumulates byte by byte until its last logical line is
//! empty (the blank line that ends an HTTP/1.1 request head). The head is
//! then validated as UTF-8, its request line is checked for the `GET`
//! method, and the first whitespace-delimited token that begins with `/`
//! selects one of three routes.

use vstd::prelude::*;
use vstd::utf8::valid_utf8;

verus! {

/// Line feed.
pub const LF: u8 = 10;

/// Carriage return.
pub const CR: u8 = 13;

/// Space, the request-line token separator.
pub const SP: u8 = 32;

/// `/`, the first byte of every request target.
pub const SLASH: u8 = 47;

/// The three possible responses: the index page, the JSON document, and
/// the generic error page that answers every other request target.
#[derive(Clone, Copy, PartialEq, Eq, Structural, Debug)]
pub enum Route {
    Index,
    Json,
    Other,
}

/// Why a finalized request head was rejected; any of these ends the
/// connection without a response.
#[derive(Clone, Copy, PartialEq, Eq, Structural, Debug)]
pub enum HeadError {
    /// The head is not valid UTF-8.
    NotUtf8,
    /// The request line does not start with `GET`.
    NotGet,
    /// No token of the request line starts with `/`.
    NoPath,
}

/// True when the last logical line of `s` is empty, in the sense of
/// `str::lines`: lines are separated by `\n`, a `\r` directly before a
/// separator belongs to the separator, and a final separator ends the
/// last line rather than opening a new one. This is the condition that
/// marks a request head as complete.
pub open spec fn head_complete(s: Seq<u8>) -> bool {
    ||| s == seq![LF]
    ||| s == seq![CR, LF]
    ||| (s.len() >= 2 && s[s.len() - 2] == LF && s[s.len() - 1] == LF)
    ||| (s.len() >= 3 && s[s.len() - 3] == LF && s[s.len() - 2] == CR && s[s.len() - 1] == LF)
}

/// Decides completeness of the first `len` bytes of `buf`.
pub fn is_head_complete(buf: &Vec<u8>, len: usize) -> (r: bool)
    requires
        len <= buf@.len(),
    ensures
        r == head_complete(buf@.subrange(0, len as int)),
{
    let ghost s = buf@.subrange(0, len as int);
    proof {
        assert(s.len() == len as int);
        assert(forall|i: int| 0 <= i < len ==> s[i] == buf@[i]);
        assert(seq![LF].len() == 1 && seq![LF][0] == LF);
        assert(seq![CR, LF].len() == 2 && seq![CR, LF][0] == CR && seq![CR, LF][1] == LF);
    }
    if len == 0 {
        return false;
    }
    if buf[len - 1] != LF {
        return false;
    }
    if len == 1 {
        proof {
            assert(s =~= seq![LF]);
        }
        return true;
    }
    if buf[len - 2] == LF {
        return true;
    }
    if buf[len - 2] == CR {
        if len == 2 {
            proof {
                assert(s =~= seq![CR, LF]);
            }
            return true;
        }
        return buf[len - 3] == LF;
    }
    false
}

/// Index of the first occurrence of `b` in `s` at or after `from`, or
/// `s.len()` when there is none.
pub open spec fn scan_to(s: Seq<u8>, from: int, b: u8) -> int
    decreases s.len() - from,
{
    if from < 0 || from >= s.len() {
        s.len() as int
    } else if s[from] == b {
        from
    } else {
        scan_to(s, from + 1, b)
    }
}

/// `scan_to` stays between `from` and the length, finds no earlier hit,
/// and lands on `b` unless it ran off the end.
pub proof fn lemma_scan_to(s: Seq<u8>, from: int, b: u8)
    requires
        0 <= from <= s.len(),
    ensures
        from <= scan_to(s, from, b) <= s.len(),
        forall|j: int| from <= j < scan_to(s, from, b) ==> s[j] != b,
        scan_to(s, from, b) < s.len() ==> s[scan_to(s, from, b)] == b,
    decreases s.len() - from,
{
    if from < s.len() && s[from] != b {
        lemma_scan_to(s, from + 1, b);
    }
}

/// The first line of the head: the bytes before the first line feed,
/// without a trailing carriage return. This is the request line.
pub open spec fn first_line(s: Seq<u8>) -> Seq<u8> {
    let raw = s.subrange(0, scan_to(s, 0, LF));
    if raw.len() > 0 && raw[raw.len() - 1] == CR {
        raw.drop_last()
    } else {
        raw
    }
}

/// True when the request line names the only accepted method. Nothing
/// beyond the first three bytes is inspected, so a longer first token
/// that merely begins with `GET` is accepted as well.
pub open spec fn starts_with_get(line: Seq<u8>) -> bool {
    line.len() >= 3 && line[0] == 71 && line[1] == 69 && line[2] == 84
}

/// Index of the start of the first space-delimited token of `line` that
/// begins with `/`, scanning from `i`; `at_token_start` says whether `i`
/// is the first byte of a token. Negative when there is no such token.
pub open spec fn path_start_from(line: Seq<u8>, i: int, at_token_start: bool) -> int
    decreases line.len() - i,
{
    if i < 0 || i >= line.len() {
        -1
    } else if at_token_start && line[i] == SLASH {
        i
    } else {
        path_start_from(line, i + 1, line[i] == SP)
    }
}

/// The first space-delimited token of the request line that begins with
/// `/`: the request target.
pub open spec fn path_token(line: Seq<u8>) -> Option<Seq<u8>> {
    let start = path_start_from(line, 0, true);
    if start < 0 {
        None
    } else {
        Some(line.subrange(start, scan_to(line, start, SP)))
    }
}

/// The route selected by a request target: `/` is the index page,
/// `/json` the JSON document, and every other target the error page.
pub open spec fn spec_path_route(p: Seq<u8>) -> Route {
    if p == seq![SLASH] {
        Route::Index
    } else if p == seq![SLASH, 106u8, 115u8, 111u8, 110u8] {
        Route::Json
    } else {
        Route::Other
    }
}

/// What routing a finalized head yields: the head must be UTF-8, its
/// request line must start with `GET`, and a target token must exist;
/// the target then picks the route.
pub open spec fn spec_route(head: Seq<u8>) -> Result<Route, HeadError> {
    if !valid_utf8(head) {
        Err(HeadError::NotUtf8)
    } else if !starts_with_get(first_line(head)) {
        Err(HeadError::NotGet)
    } else if path_start_from(first_line(head), 0, true) < 0 {
        Err(HeadError::NoPath)
    } else {
        Ok(spec_path_route(path_token(first_line(head)).unwrap()))
    }
}

/// Relies on `core::str::from_utf8`: it accepts exactly the byte
/// sequences that `valid_utf8` describes, which is the encoding check
/// applied once to the finalized head.
#[verifier::external_body]
fn utf8_ok(bytes: &Vec<u8>) -> (r: bool)
    ensures
        r == valid_utf8(bytes@),
{
    core::str::from_utf8(bytes.as_slice()).is_ok()
}

/// Routes a finalized request head, or says why it is rejected.
pub fn route_request(head: &Vec<u8>) -> (r: Result<Route, HeadError>)
    ensures
        r == spec_route(head@),
{
    let ghost s = head@;
    if !utf8_ok(head) {
        return Err(HeadError::NotUtf8);
    }
    let n = head.len();

    // Find the end of the first line.
    let mut e: usize = 0;
    while e < n && head[e] != LF
        invariant
            0 <= e <= n,
            n == s.len(),
            s == head@,
            scan_to(s, 0, LF) == scan_to(s, e as int, LF),
        decreases n - e,
    {
        proof {
            assert(scan_to(s, e as int, LF) == scan_to(s, e as int + 1, LF));
        }
        e += 1;
    }
    proof {
        assert(scan_to(s, 0, LF) == e as int);
    }

    // Drop a trailing carriage return from the request line.
    let line_end: usize = if e > 0 && head[e - 1] == CR {
        e - 1
    } else {
        e
    };
    let ghost line = first_line(s);
    proof {
        assert(line =~= s.subrange(0, line_end as int));
        assert(forall|j: int| 0 <= j < line_end ==> line[j] == s[j]);
    }

    // The method token.
    if line_end < 3 || head[0] != 71 || head[1] != 69 || head[2] != 84 {
        return Err(HeadError::NotGet);
    }

    // Find the start of the first token that begins with a slash.
    let mut i: usize = 0;
    let mut at_start: bool = true;
    while i < line_end && !(at_start && head[i] == SLASH)
        invariant
            0 <= i <= line_end,
            line_end <= n == s.len(),
            s == head@,
            line == s.subrange(0, line_end as int),
            line.len() == line_end,
            path_start_from(line, 0, true) == path_start_from(line, i as int, at_start),
        decreases line_end - i,
    {
        proof {
            assert(path_start_from(line, i as int, at_start) == path_start_from(
                line,
                i as int + 1,
                line[i as int] == SP,
            ));
        }
        at_start = head[i] == SP;
        i += 1;
    }
    if i == line_end {
        proof {
            assert(path_start_from(line, i as int, at_start) == -1);
        }
        return Err(HeadError::NoPath);
    }
    let start = i;
    proof {
        assert(path_start_from(line, 0, true) == start as int);
    }

    // Find the end of that token.
    let mut j: usize = start;
    while j < line_end && head[j] != SP
        invariant
            start <= j <= line_end,
            line_end <= n == s.len(),
            s == head@,
            line == s.subrange(0, line_end as int),
            line.len() == line_end,
            scan_to(line, start as int, SP) == scan_to(line, j as int, SP),
        decreases line_end - j,
    {
        proof {
            assert(scan_to(line, j as int, SP) == scan_to(line, j as int + 1, SP));
        }
        j += 1;
    }
    proof {
        assert(scan_to(line, start as int, SP) == j as int);
    }
    let ghost p = path_token(line).unwrap();
    proof {
        assert(p == line.subrange(start as int, j as int));
    }

    // Classify the target.
    let tok_len = j - start;
    let r = if tok_len == 1 {
        proof {
            assert(p =~= seq![SLASH]);
        }
        Route::Index
    } else if tok_len == 5 && head[start + 1] == 106 && head[start + 2] == 115 && head[start + 3]
        == 111 && head[start + 4] == 110 {
        proof {
            assert(p =~= seq![SLASH, 106u8, 115u8, 111u8, 110u8]);
        }
        Route::Json
    } else {
        proof {
            if p.len() == 5 {
                assert(p != seq![SLASH, 106u8, 115u8, 111u8, 110u8]);
            }
        }
        Route::Other
    };
    Ok(r)
}

/// A request line that does not start with `GET` is never served: every
/// such head routes to an error, whatever the rest of it holds.
pub proof fn lemma_non_get_rejected(head: Seq<u8>)
    requires
        !starts_with_get(first_line(head)),
    ensures
        spec_route(head) is Err,
{
}

/// A well-formed request head, `GET <path> HTTP/1.1` with network line
/// endings and the terminating blank line.
pub open spec fn get_request_head(path: Seq<u8>) -> Seq<u8> {
    seq![71u8, 69u8, 84u8, SP] + path + seq![
        SP,
        72u8,
        84u8,
        84u8,
        80u8,
        SLASH,
        49u8,
        46u8,
        49u8,
        CR,
        LF,
        CR,
        LF,
    ]
}

/// A well-formed `GET` head is recognized as complete exactly at its
/// end: the whole head is complete, and no proper prefix is, however the
/// bytes were chunked on the way in. Completeness is a function of the
/// accumulated bytes alone, so the delivery pattern cannot matter.
pub proof fn lemma_request_head_completion(path: Seq<u8>, k: int)
    requires
        forall|i: int| 0 <= i < path.len() ==> path[i] != LF,
        0 <= k < get_request_head(path).len(),
    ensures
        head_complete(get_request_head(path)),
        !head_complete(get_request_head(path).take(k)),
{
    let h = get_request_head(path);
    let plen = path.len() as int;
    let n = h.len() as int;
    let tail = seq![SP, 72u8, 84u8, 84u8, 80u8, SLASH, 49u8, 46u8, 49u8, CR, LF, CR, LF];
    assert(n == plen + 17);
    assert(forall|x: int| 4 + plen <= x < n ==> h[x] == tail[x - 4 - plen]);
    assert forall|x: int| 0 <= x < n && x != n - 3 && x != n - 1 implies h[x] != LF by {
        if x < 4 {
            assert(h[x] == seq![71u8, 69u8, 84u8, SP][x]);
        } else if x < 4 + plen {
            assert(h[x] == path[x - 4]);
        } else {
            assert(h[x] == tail[x - 4 - plen]);
        }
    }
    assert(h[n - 5] == tail[8] && h[n - 4] == tail[9]);
    assert(h[n - 3] == tail[10] && h[n - 2] == tail[11] && h[n - 1] == tail[12]);
    assert(head_complete(h));
    let t = h.take(k);
    assert(t.len() == k);
    assert(forall|x: int| 0 <= x < k ==> t[x] == h[x]);
    if head_complete(t) {
        assert(seq![LF].len() == 1 && seq![LF][0] == LF);
        assert(seq![CR, LF].len() == 2 && seq![CR, LF][1] == LF);
        assert(t[k - 1] == LF);
        assert(k - 1 == n - 3);
        assert(k == n - 2);
        assert(t[k - 2] == CR);
        assert(!(t == seq![LF]) && !(t == seq![CR, LF]));
        assert(t[k - 3] == LF);
        assert(t[k - 3] == h[n - 5]);
        assert(false);
    }
}

/// Assembling a request head as `GET <path> HTTP/1.1` with network line
/// endings and the terminating blank line, for an ASCII target with no
/// spaces, routes exactly as the target dictates — the request-line
/// parse recovers the very token that was put in.
pub proof fn lemma_request_head_routes(path: Seq<u8>)
    requires
        path.len() >= 1,
        path[0] == SLASH,
        forall|i: int| 0 <= i < path.len() ==> path[i] < 128,
        forall|i: int| 0 <= i < path.len() ==> path[i] != SP,
        forall|i: int| 0 <= i < path.len() ==> path[i] != LF,
    ensures
        spec_route(get_request_head(path)) == Ok::<Route, HeadError>(spec_path_route(path)),
{
    let h = get_request_head(path);
    let plen = path.len() as int;
    let n = h.len() as int;
    let head4 = seq![71u8, 69u8, 84u8, SP];
    let tail = seq![SP, 72u8, 84u8, 84u8, 80u8, SLASH, 49u8, 46u8, 49u8, CR, LF, CR, LF];
    assert(n == plen + 17);
    assert(forall|x: int| 0 <= x < 4 ==> h[x] == head4[x]);
    assert(forall|x: int| 4 <= x < 4 + plen ==> h[x] == path[x - 4]);
    assert(forall|x: int| 4 + plen <= x < n ==> h[x] == tail[x - 4 - plen]);

    // The head is ASCII throughout, hence valid UTF-8.
    assert forall|x: int| 0 <= x < n implies vstd::utf8::is_leading_byte_width_1(h[x]) by {
        if x < 4 {
            assert(h[x] == head4[x]);
        } else if x < 4 + plen {
            assert(h[x] == path[x - 4]);
        } else {
            assert(h[x] == tail[x - 4 - plen]);
        }
    }
    assert(h.subrange(0, 0) =~= Seq::<u8>::empty());
    assert(vstd::utf8::partial_valid_utf8(h, 0));
    vstd::utf8::partial_valid_utf8_extend_ascii_block(h, 0, n);
    assert(h.subrange(0, n) =~= h);
    assert(valid_utf8(h));

    // The first line feed sits right before the final blank line.
    assert forall|x: int| 0 <= x < n && x != n - 3 && x != n - 1 implies h[x] != LF by {
        if x < 4 {
            assert(h[x] == head4[x]);
        } else if x < 4 + plen {
            assert(h[x] == path[x - 4]);
        } else {
            assert(h[x] == tail[x - 4 - plen]);
        }
    }
    assert(h[n - 3] == tail[10]);
    lemma_scan_to(h, 0, LF);
    let e = scan_to(h, 0, LF);
    if e < n - 3 {
        assert(h[e] == LF);
        assert(false);
    }
    if e > n - 3 {
        assert(h[n - 3] != LF);
        assert(false);
    }
    let raw = h.subrange(0, n - 3);
    assert(raw[raw.len() - 1] == h[n - 4]);
    assert(h[n - 4] == tail[9]);
    let line = first_line(h);
    assert(line =~= h.subrange(0, n - 4));
    assert(forall|j: int| 0 <= j < n - 4 ==> line[j] == h[j]);

    // The request line starts with the method token.
    assert(starts_with_get(line));

    // The target token starts right after `GET ` ...
    assert(line[0] == 71u8 && line[1] == 69u8 && line[2] == 84u8 && line[3] == SP);
    assert(line[4] == path[0]);
    assert(path_start_from(line, 0, true) == path_start_from(line, 1, false));
    assert(path_start_from(line, 1, false) == path_start_from(line, 2, false));
    assert(path_start_from(line, 2, false) == path_start_from(line, 3, false));
    assert(path_start_from(line, 3, false) == path_start_from(line, 4, true));
    assert(path_start_from(line, 4, true) == 4);

    // ... and runs to the space before the protocol version.
    lemma_scan_to(line, 4, SP);
    let j = scan_to(line, 4, SP);
    assert(line[4 + plen] == h[4 + plen]);
    assert(h[4 + plen] == tail[0]);
    if j < 4 + plen {
        assert(line[j] == SP);
        assert(line[j] == path[j - 4]);
        assert(false);
    }
    if j > 4 + plen {
        assert(line[4 + plen] != SP);
        assert(false);
    }
    let p = path_token(line).unwrap();
    assert(p =~= path);
}

} // verus!
