use vstd::prelude::*;

use crate::reply::{contains_text, fallback_body, lemma_fallback_names_uri};

verus! {

/// Path of the route that lists every record.
pub const LIST_PATH: &'static str = "/user/list";

/// Path of the route that creates a record.
pub const CREATE_PATH: &'static str = "/user/create";

/// The handler that a request is dispatched to.
#[derive(Clone, Copy, Debug, PartialEq, Eq, Structural)]
pub enum Route {
    ListUsers,
    CreateUser,
    NotFound,
}

/// Which handler serves a request with this method and path: `GET` on the
/// list path, `POST` on the create path, and the fallback for anything else,
/// a known path with another method included.
pub open spec fn route_of(method: Seq<char>, path: Seq<char>) -> Route {
    if method == "GET"@ && path == "/user/list"@ {
        Route::ListUsers
    } else if method == "POST"@ && path == "/user/create"@ {
        Route::CreateUser
    } else {
        Route::NotFound
    }
}

/// Whether two strings hold the same characters.
fn same_text(a: &str, b: &str) -> (r: bool)
    ensures
        r == (a@ == b@),
{
    let n = a.unicode_len();
    if n != b.unicode_len() {
        return false;
    }
    let mut i: usize = 0;
    while i < n
        invariant
            n == a@.len(),
            n == b@.len(),
            i <= n,
            forall|j: int| 0 <= j < i ==> a@[j] == b@[j],
        decreases n - i,
    {
        if a.get_char(i) != b.get_char(i) {
            return false;
        }
        i = i + 1;
    }
    assert(a@ =~= b@);
    true
}

/// Picks the handler for a request from its method (as written on the
/// request line, such as `GET`) and its path.
pub fn route(method: &str, path: &str) -> (r: Route)
    ensures
        r == route_of(method@, path@),
{
    if same_text(method, "GET") && same_text(path, LIST_PATH) {
        Route::ListUsers
    } else if same_text(method, "POST") && same_text(path, CREATE_PATH) {
        Route::CreateUser
    } else {
        Route::NotFound
    }
}

/// A request for any path other than the two routes reaches the fallback,
/// whatever its method, and the fallback's reply holds the requested URI.
pub proof fn lemma_unknown_path_not_found(method: Seq<char>, path: Seq<char>, uri: Seq<char>)
    requires
        path != "/user/list"@,
        path != "/user/create"@,
    ensures
        route_of(method, path) == Route::NotFound,
        contains_text(fallback_body(uri), uri),
{
    lemma_fallback_names_uri(uri);
}

} // verus!
