use vstd::prelude::*;

verus! {

/// Status code of a request for which no route exists.
pub const NOT_FOUND: u16 = 404;

/// Status code of a request whose database step failed.
pub const INTERNAL_SERVER_ERROR: u16 = 500;

/// A plain-text reply: a status code and its body.
#[derive(Clone, Debug, PartialEq, Eq)]
pub struct TextReply {
    pub status: u16,
    pub body: String,
}

/// The body of the reply to a request for which no route exists.
pub open spec fn fallback_body(uri: Seq<char>) -> Seq<char> {
    "No route for "@ + uri
}

/// Whether `needle` occurs in `hay` as a contiguous run of characters.
pub open spec fn contains_text(hay: Seq<char>, needle: Seq<char>) -> bool {
    exists|i: int|
        0 <= i && i + needle.len() <= hay.len() && #[trigger] hay.subrange(i, i + needle.len())
            == needle
}

/// The reply to a request that matches no route: `404`, naming the URI.
pub fn fallback_handler(uri: &str) -> (r: TextReply)
    ensures
        r.status == NOT_FOUND,
        r.body@ == fallback_body(uri@),
{
    let body = String::from_str("No route for ").concat(uri);
    TextReply { status: NOT_FOUND, body }
}

/// The reply to a failed pool or database step: `500`, with the failure's
/// description as the body.
pub fn internal_error(message: String) -> (r: TextReply)
    ensures
        r.status == INTERNAL_SERVER_ERROR,
        r.body@ == message@,
{
    TextReply { status: INTERNAL_SERVER_ERROR, body: message }
}

/// Carries a step's value through, or turns its failure into a `500` reply.
/// Every failure of a handler's steps collapses to this one reply.
pub fn respond<T>(step: Result<T, String>) -> (r: Result<T, TextReply>)
    ensures
        match step {
            Ok(v) => r == Ok::<T, TextReply>(v),
            Err(m) => r.is_err() && r->Err_0.status == INTERNAL_SERVER_ERROR && r->Err_0.body@
                == m@,
        },
{
    match step {
        Ok(v) => Ok(v),
        Err(m) => Err(internal_error(m)),
    }
}

/// The `404` reply names the requested URI: its body holds the URI verbatim.
pub proof fn lemma_fallback_names_uri(uri: Seq<char>)
    ensures
        contains_text(fallback_body(uri), uri),
{
    reveal_strlit("No route for ");
    let body = fallback_body(uri);
    let k: int = "No route for "@.len() as int;
    assert(body.subrange(k, k + uri.len() as int) =~= uri);
}

} // verus!
