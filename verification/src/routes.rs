//! The route table: which handler serves a request, by method and path.
//!
//! Four application routes — the page, the two counter mutations and the
//! timer stream — plus the static prefix, under which any path is resolved
//! against the public directory. Anything else is not found.

use vstd::prelude::*;

verus! {

/// The handler a request is dispatched to.
#[derive(Clone, Copy, PartialEq, Eq, Structural, Debug)]
pub enum RouteTarget {
    /// GET `/`: the HTML page.
    Page,
    /// POST `/increment`: +1 on the session counter.
    Increment,
    /// POST `/decrement`: -1 on the session counter.
    Decrement,
    /// GET `/timer`: the server-push timer stream.
    Timer,
    /// Anything under `/public`: a file of the public directory.
    StaticAsset,
    /// No route matches.
    NotFound,
}

/// Whether the path lies under the static prefix `/public`.
pub open spec fn is_public_path(path: Seq<char>) -> bool {
    path == "/public"@ || (path.len() >= "/public/"@.len() && path.take(
        "/public/"@.len() as int,
    ) == "/public/"@)
}

/// The route table, over the method and path of a request.
pub open spec fn route_of(method: Seq<char>, path: Seq<char>) -> RouteTarget {
    if method == "GET"@ && path == "/"@ {
        RouteTarget::Page
    } else if method == "POST"@ && path == "/increment"@ {
        RouteTarget::Increment
    } else if method == "POST"@ && path == "/decrement"@ {
        RouteTarget::Decrement
    } else if method == "GET"@ && path == "/timer"@ {
        RouteTarget::Timer
    } else if is_public_path(path) {
        RouteTarget::StaticAsset
    } else {
        RouteTarget::NotFound
    }
}

/// Whether two strings hold the same characters.
fn str_eq(a: &str, b: &str) -> (r: bool)
    ensures
        r == (a@ == b@),
{
    let a_len = a.unicode_len();
    let b_len = b.unicode_len();
    if a_len != b_len {
        return false;
    }
    let mut i: usize = 0;
    while i < a_len
        invariant
            a_len == a@.len(),
            b_len == b@.len(),
            a_len == b_len,
            i <= a_len,
            forall|j: int| 0 <= j < i ==> a@[j] == b@[j],
        decreases a_len - i,
    {
        if a.get_char(i) != b.get_char(i) {
            return false;
        }
        i = i + 1;
    }
    proof {
        assert(a@ =~= b@);
    }
    true
}

/// Whether `s` starts with the characters of `prefix`.
fn str_has_prefix(s: &str, prefix: &str) -> (r: bool)
    ensures
        r == (prefix@.len() <= s@.len() && s@.take(prefix@.len() as int) == prefix@),
{
    let p_len = prefix.unicode_len();
    let s_len = s.unicode_len();
    if s_len < p_len {
        return false;
    }
    let mut i: usize = 0;
    while i < p_len
        invariant
            p_len == prefix@.len(),
            s_len == s@.len(),
            p_len <= s_len,
            i <= p_len,
            forall|j: int| 0 <= j < i ==> s@[j] == prefix@[j],
        decreases p_len - i,
    {
        if s.get_char(i) != prefix.get_char(i) {
            proof {
                assert(s@.take(p_len as int)[i as int] != prefix@[i as int]);
            }
            return false;
        }
        i = i + 1;
    }
    proof {
        assert(s@.take(p_len as int) =~= prefix@);
    }
    true
}

/// Dispatches one request: the route table applied to its method and path.
pub fn match_route(method: &str, path: &str) -> (r: RouteTarget)
    ensures
        r == route_of(method@, path@),
{
    let is_get = str_eq(method, "GET");
    let is_post = str_eq(method, "POST");
    if is_get && str_eq(path, "/") {
        RouteTarget::Page
    } else if is_post && str_eq(path, "/increment") {
        RouteTarget::Increment
    } else if is_post && str_eq(path, "/decrement") {
        RouteTarget::Decrement
    } else if is_get && str_eq(path, "/timer") {
        RouteTarget::Timer
    } else if str_eq(path, "/public") || str_has_prefix(path, "/public/") {
        RouteTarget::StaticAsset
    } else {
        RouteTarget::NotFound
    }
}

} // verus!
