//! The static route table and its two handlers: a plain-text greeting at
//! `/` and a fixed JSON object at `/complex`, both answering HTTP GET
//! only. Every other request falls through to the HTTP stack's default
//! rejection, so nothing here ever answers it.

use vstd::prelude::*;
use crate::json::json_object_text;
use crate::json::plain_text;
use crate::json::to_json_object;

verus! {

/// A canned HTTP response: status code, body, and content type.
pub struct Reply {
    pub status: u16,
    pub content_type: &'static str,
    pub body: String,
}

/// The body served at `/`.
pub open spec fn root_body() -> Seq<char> {
    "Hello, World!"@
}

/// The body served at `/complex`: the object `{"message":"Hello, World!"}`.
pub open spec fn complex_body() -> Seq<char> {
    json_object_text("message"@, "Hello, World!"@)
}

/// What the route table serves at `/`.
pub open spec fn is_root_reply(r: Reply) -> bool {
    r.status == 200 && r.body@ == root_body() && r.content_type@ == "text/plain"@
}

/// What the route table serves at `/complex`.
pub open spec fn is_complex_reply(r: Reply) -> bool {
    r.status == 200 && r.body@ == complex_body() && r.content_type@ == "application/json"@
}

/// The body served at `/complex` is exactly the compact text
/// `{"message":"Hello, World!"}`: one key, one value, nothing else.
pub proof fn lemma_complex_body_text()
    ensures
        complex_body() == "{\"message\":\"Hello, World!\"}"@,
{
    reveal_strlit("message");
    reveal_strlit("Hello, World!");
    reveal_strlit("{\"message\":\"Hello, World!\"}");
    assert(complex_body() =~= "{\"message\":\"Hello, World!\"}"@);
}

/// Handler for `/`: the constant greeting.
pub fn root() -> (r: &'static str)
    ensures
        r@ == root_body(),
{
    "Hello, World!"
}

/// Handler for `/complex`: status 200 with the fixed JSON object.
pub fn complex() -> (r: Reply)
    ensures
        is_complex_reply(r),
{
    proof {
        reveal_strlit("message");
        reveal_strlit("Hello, World!");
        assert(plain_text("message"@));
        assert(plain_text("Hello, World!"@));
    }
    let body = to_json_object("message", "Hello, World!");
    Reply { status: 200, content_type: "application/json", body }
}

/// Character-by-character string equality, settled for any two strings.
fn str_eq(a: &str, b: &str) -> (r: bool)
    ensures
        r == (a@ == b@),
{
    let n: usize = a.unicode_len();
    if n != b.unicode_len() {
        return false;
    }
    let mut i: usize = 0;
    while i < n
        invariant
            i <= n,
            n == a@.len(),
            n == b@.len(),
            forall|j: int| 0 <= j < i ==> a@[j] == b@[j],
        decreases n - i,
    {
        if a.get_char(i) != b.get_char(i) {
            return false;
        }
        i += 1;
    }
    proof {
        assert(a@ =~= b@);
    }
    true
}

/// The static route table: the reply for a request, given its method and
/// the path component of its URI (query excluded), or `None` where no
/// route matches and the HTTP stack's default rejection answers instead.
pub fn handle_request(method: &str, path: &str) -> (r: Option<Reply>)
    ensures
        method@ == "GET"@ && path@ == "/"@ ==> (r matches Some(rep) && is_root_reply(rep)),
        method@ == "GET"@ && path@ == "/complex"@ ==> (r matches Some(rep) && is_complex_reply(
            rep,
        )),
        !(method@ == "GET"@ && (path@ == "/"@ || path@ == "/complex"@)) ==> r is None,
{
    proof {
        reveal_strlit("/");
        reveal_strlit("/complex");
        assert("/"@.len() == 1);
        assert("/complex"@.len() == 8);
    }
    if !str_eq(method, "GET") {
        return None;
    }
    if str_eq(path, "/") {
        let body = String::from_str(root());
        return Some(Reply { status: 200, content_type: "text/plain", body });
    }
    if str_eq(path, "/complex") {
        return Some(complex());
    }
    None
}

} // verus!
