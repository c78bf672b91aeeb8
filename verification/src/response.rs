//! The three canned HTTP/1.1 responses.
//!
//! Each generator returns a complete, self-terminated response as text:
//! status line, headers, blank line, body, all from fixed templates. The
//! index response carries a `content-length` header computed from the
//! byte length of the embedded page plus the two line terminators that
//! the template appends after the page.

use vstd::prelude::*;
use vstd::string::StringExecFns;
use vstd::utf8::encode_utf8;
use crate::head::Route;

verus! {

/// The decimal digit for `d`.
pub open spec fn digit_char(d: int) -> char {
    if d == 0 { '0' }
    else if d == 1 { '1' }
    else if d == 2 { '2' }
    else if d == 3 { '3' }
    else if d == 4 { '4' }
    else if d == 5 { '5' }
    else if d == 6 { '6' }
    else if d == 7 { '7' }
    else if d == 8 { '8' }
    else { '9' }
}

/// The value of a decimal digit.
pub open spec fn digit_value(c: char) -> int {
    if c == '0' { 0 }
    else if c == '1' { 1 }
    else if c == '2' { 2 }
    else if c == '3' { 3 }
    else if c == '4' { 4 }
    else if c == '5' { 5 }
    else if c == '6' { 6 }
    else if c == '7' { 7 }
    else if c == '8' { 8 }
    else { 9 }
}

/// The usual decimal rendering of `n`, most significant digit first,
/// with no leading zeros (a single `0` for zero).
pub open spec fn spec_decimal(n: nat) -> Seq<char>
    decreases n,
{
    if n < 10 {
        seq![digit_char(n as int)]
    } else {
        spec_decimal(n / 10) + seq![digit_char((n % 10) as int)]
    }
}

/// The number a digit string denotes.
pub open spec fn decimal_value(s: Seq<char>) -> int
    decreases s.len(),
{
    if s.len() == 0 {
        0
    } else {
        10 * decimal_value(s.drop_last()) + digit_value(s.last())
    }
}

/// Reading the decimal rendering of `n` back yields `n`.
pub proof fn lemma_decimal_value(n: nat)
    ensures
        decimal_value(spec_decimal(n)) == n,
    decreases n,
{
    if n < 10 {
        assert(seq![digit_char(n as int)].drop_last() =~= Seq::<char>::empty());
        assert(decimal_value(Seq::<char>::empty()) == 0);
        assert(decimal_value(spec_decimal(n)) == digit_value(digit_char(n as int)));
    } else {
        lemma_decimal_value(n / 10);
        let d = digit_char((n % 10) as int);
        assert((spec_decimal(n / 10) + seq![d]).drop_last() =~= spec_decimal(n / 10));
        assert((spec_decimal(n / 10) + seq![d]).last() == d);
        assert(digit_value(d) == n % 10);
        vstd::arithmetic::div_mod::lemma_fundamental_div_mod(n as int, 10);
    }
}

fn digit_text(d: u128) -> (r: &'static str)
    requires
        d < 10,
    ensures
        r@ == seq![digit_char(d as int)],
{
    let r: &'static str = if d == 0 { "0" }
    else if d == 1 { "1" }
    else if d == 2 { "2" }
    else if d == 3 { "3" }
    else if d == 4 { "4" }
    else if d == 5 { "5" }
    else if d == 6 { "6" }
    else if d == 7 { "7" }
    else if d == 8 { "8" }
    else { "9" };
    proof {
        reveal_strlit("0");
        reveal_strlit("1");
        reveal_strlit("2");
        reveal_strlit("3");
        reveal_strlit("4");
        reveal_strlit("5");
        reveal_strlit("6");
        reveal_strlit("7");
        reveal_strlit("8");
        reveal_strlit("9");
        assert(("0")@ =~= seq!['0']);
        assert(("1")@ =~= seq!['1']);
        assert(("2")@ =~= seq!['2']);
        assert(("3")@ =~= seq!['3']);
        assert(("4")@ =~= seq!['4']);
        assert(("5")@ =~= seq!['5']);
        assert(("6")@ =~= seq!['6']);
        assert(("7")@ =~= seq!['7']);
        assert(("8")@ =~= seq!['8']);
        assert(("9")@ =~= seq!['9']);
    }
    r
}

/// Renders `n` in decimal.
pub fn decimal_string(n: u128) -> (r: String)
    ensures
        r@ == spec_decimal(n as nat),
    decreases n,
{
    if n < 10 {
        digit_text(n).to_owned()
    } else {
        let mut s = decimal_string(n / 10);
        s.append(digit_text(n % 10));
        proof {
            assert(s@ =~= spec_decimal(n as nat));
        }
        s
    }
}

/// The embedded index page.
pub open spec fn index_page() -> Seq<char> {
    "<!DOCTYPE html>\n<html>\n\n<head>\n  <title>Axum Fetch Hang</title>\n  <meta content=\"text/html;charset=utf-8\" http-equiv=\"Content-Type\" />\n  <meta name=\"viewport\" content=\"width=device-width, initial-scale=1\" />\n  <meta charset=\"UTF-8\" />\n</head>\n\n<body>\n  <p id=\"main\">Please check the console for logs, and network tab for hanging requests.</p>\n  <script lang=\"text/javascript\">\n    function fetchData() {\n      return fetch(\"https://127.0.0.1:3000/json\", {\n        credentials: 'include'\n      })\n      .then(response => {\n        if (!response.ok) {\n          throw new Error('Network response was not ok');\n        }\n        return response.json();\n      })\n      .then(data => {\n        console.log(data);\n        return true;\n      })\n      .catch(error => {\n        console.error('There was a problem with the fetch operation:', error);\n        return false;\n      });\n    }\n\n    fetchData();\n    setTimeout(fetchData, 3000);\n  </script>\n</body>\n\n</html>\n"@
}

fn index_page_text() -> (r: &'static str)
    ensures
        r@ == index_page(),
{
    "<!DOCTYPE html>\n<html>\n\n<head>\n  <title>Axum Fetch Hang</title>\n  <meta content=\"text/html;charset=utf-8\" http-equiv=\"Content-Type\" />\n  <meta name=\"viewport\" content=\"width=device-width, initial-scale=1\" />\n  <meta charset=\"UTF-8\" />\n</head>\n\n<body>\n  <p id=\"main\">Please check the console for logs, and network tab for hanging requests.</p>\n  <script lang=\"text/javascript\">\n    function fetchData() {\n      return fetch(\"https://127.0.0.1:3000/json\", {\n        credentials: 'include'\n      })\n      .then(response => {\n        if (!response.ok) {\n          throw new Error('Network response was not ok');\n        }\n        return response.json();\n      })\n      .then(data => {\n        console.log(data);\n        return true;\n      })\n      .catch(error => {\n        console.error('There was a problem with the fetch operation:', error);\n        return false;\n      });\n    }\n\n    fetchData();\n    setTimeout(fetchData, 3000);\n  </script>\n</body>\n\n</html>\n"
}

/// The index response: the 200 status line, the `text/html` content
/// type, a `content-length` of the page's byte length plus two, a blank
/// line, the page, and the template's trailing line terminators.
pub open spec fn index_response() -> Seq<char> {
    "HTTP/1.1 200 OK\ncontent-type: text/html\ncontent-length: "@ + spec_decimal((encode_utf8(index_page()).len() + 2) as nat) + "\n\n"@ + index_page()
        + "\n\n\n"@
}

/// The JSON response: a 200 status line, the `application/json` content
/// type, and the fixed JSON document.
pub open spec fn json_response() -> Seq<char> {
    "HTTP/1.1 200 OK\ncontent-type: application/json\n\n{\n    \"json\": \"object\"\n}\n\n"@
}

/// The error response: a 500 status line, the `text/html` content type,
/// and the fixed error page. Every request target other than the two
/// known ones is answered with this.
pub open spec fn error_response() -> Seq<char> {
    "HTTP/1.1 500 INTERNAL SERVER ERROR\ncontent-type: text/html\n\n<html><body>\nSomething went wrong\n</body></html>\n\n\n"@
}

/// The response for a route.
pub open spec fn spec_response(route: Route) -> Seq<char> {
    match route {
        Route::Index => index_response(),
        Route::Json => json_response(),
        Route::Other => error_response(),
    }
}

/// Generates the index response.
pub fn index() -> (r: String)
    ensures
        r@ == index_response(),
{
    broadcast use vstd::slice::axiom_spec_len;

    let body = index_page_text();
    let body_bytes: &[u8] = body.as_bytes();
    let content_len: u128 = (body_bytes.len() as u128) + 2;
    let digits = decimal_string(content_len);
    let mut r = "HTTP/1.1 200 OK\ncontent-type: text/html\ncontent-length: ".to_owned();
    r.append(digits.as_str());
    r.append("\n\n");
    r.append(body);
    r.append("\n\n\n");
    proof {
        assert(content_len as nat == (encode_utf8(index_page()).len() + 2) as nat);
        assert(digits@ == spec_decimal((encode_utf8(index_page()).len() + 2) as nat));
        assert(r@ =~= index_response());
    }
    r
}

/// Generates the JSON response.
pub fn json() -> (r: String)
    ensures
        r@ == json_response(),
{
    "HTTP/1.1 200 OK\ncontent-type: application/json\n\n{\n    \"json\": \"object\"\n}\n\n".to_owned()
}

/// Generates the error response.
pub fn error() -> (r: String)
    ensures
        r@ == error_response(),
{
    "HTTP/1.1 500 INTERNAL SERVER ERROR\ncontent-type: text/html\n\n<html><body>\nSomething went wrong\n</body></html>\n\n\n".to_owned()
}

/// Generates the response a route calls for.
pub fn response_for(route: Route) -> (r: String)
    ensures
        r@ == spec_response(route),
{
    match route {
        Route::Index => index(),
        Route::Json => json(),
        Route::Other => error(),
    }
}

/// Every response opens with its route's status line and names its
/// content type: 200 with `text/html` for the index, 200 with
/// `application/json` for the JSON document, and 500 with `text/html`
/// for everything else.
pub proof fn lemma_response_status_and_content_type()
    ensures
        index_response().take("HTTP/1.1 200 OK\ncontent-type: text/html\n"@.len() as int)
            == "HTTP/1.1 200 OK\ncontent-type: text/html\n"@,
        json_response().take("HTTP/1.1 200 OK\ncontent-type: application/json\n"@.len() as int)
            == "HTTP/1.1 200 OK\ncontent-type: application/json\n"@,
        error_response().take(
            "HTTP/1.1 500 INTERNAL SERVER ERROR\ncontent-type: text/html\n"@.len() as int,
        ) == "HTTP/1.1 500 INTERNAL SERVER ERROR\ncontent-type: text/html\n"@,
{
    reveal_strlit("HTTP/1.1 200 OK\ncontent-type: text/html\ncontent-length: ");
    reveal_strlit("HTTP/1.1 200 OK\ncontent-type: text/html\n");
    reveal_strlit("HTTP/1.1 200 OK\ncontent-type: application/json\n\n{\n    \"json\": \"object\"\n}\n\n");
    reveal_strlit("HTTP/1.1 200 OK\ncontent-type: application/json\n");
    reveal_strlit("HTTP/1.1 500 INTERNAL SERVER ERROR\ncontent-type: text/html\n\n<html><body>\nSomething went wrong\n</body></html>\n\n\n");
    reveal_strlit("HTTP/1.1 500 INTERNAL SERVER ERROR\ncontent-type: text/html\n");
    assert(index_response().take("HTTP/1.1 200 OK\ncontent-type: text/html\n"@.len() as int)
        =~= "HTTP/1.1 200 OK\ncontent-type: text/html\n"@);
    assert(json_response().take("HTTP/1.1 200 OK\ncontent-type: application/json\n"@.len() as int)
        =~= "HTTP/1.1 200 OK\ncontent-type: application/json\n"@);
    assert(error_response().take(
        "HTTP/1.1 500 INTERNAL SERVER ERROR\ncontent-type: text/html\n"@.len() as int,
    ) =~= "HTTP/1.1 500 INTERNAL SERVER ERROR\ncontent-type: text/html\n"@);
}

/// The index response's `content-length` digits stand right after the
/// header name and denote the byte length of the embedded page plus
/// exactly two, the template's trailing line terminators after the page.
pub proof fn lemma_index_content_length()
    ensures
        index_response() == "HTTP/1.1 200 OK\ncontent-type: text/html\ncontent-length: "@ + spec_decimal((encode_utf8(index_page()).len() + 2) as nat)
            + ("\n\n"@ + index_page() + "\n\n\n"@),
        decimal_value(spec_decimal((encode_utf8(index_page()).len() + 2) as nat)) == encode_utf8(
            index_page(),
        ).len() + 2,
{
    lemma_decimal_value((encode_utf8(index_page()).len() + 2) as nat);
    assert(index_response() =~= "HTTP/1.1 200 OK\ncontent-type: text/html\ncontent-length: "@ + spec_decimal(
        (encode_utf8(index_page()).len() + 2) as nat,
    ) + ("\n\n"@ + index_page() + "\n\n\n"@));
}

/// Response generation is deterministic: two responses generated for the
/// same route, with no state in between, are identical.
pub proof fn lemma_response_deterministic(route: Route, r1: Seq<char>, r2: Seq<char>)
    requires
        r1 == spec_response(route),
        r2 == spec_response(route),
    ensures
        r1 == r2,
{
}

} // verus!
