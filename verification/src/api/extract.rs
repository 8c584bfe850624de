//! What the service reads of a request to know who sends it.

use vstd::prelude::*;
use vstd::string::StrSliceExecFns;

use crate::text::starts_with;

verus! {

broadcast use vstd::string::group_string_axioms;

/// The scheme that introduces an access token in the `Authorization` header.
pub open spec fn bearer_scheme() -> Seq<char> {
    "Bearer "@
}

/// The token of an `Authorization` header of the bearer scheme: the text
/// after "Bearer ", where the header begins so.
pub fn bearer_token(authorization: &str) -> (r: Option<&str>)
    ensures
        r is Some <==> bearer_scheme().is_prefix_of(authorization@),
        r matches Some(token) ==> token@ == authorization@.skip(bearer_scheme().len() as int),
{
    proof {
        reveal_strlit("Bearer ");
    }
    if starts_with(authorization, "Bearer ") {
        let len = authorization.unicode_len();
        Some(authorization.substring_char(7, len))
    } else {
        None
    }
}

/// The token of a header written as "Bearer " and a token is that token.
pub proof fn lemma_bearer_header_gives_back_its_token(token: Seq<char>)
    ensures
        bearer_scheme().is_prefix_of(bearer_scheme() + token),
        (bearer_scheme() + token).skip(bearer_scheme().len() as int) == token,
{
    assert((bearer_scheme() + token).subrange(0, bearer_scheme().len() as int) =~= bearer_scheme());
    assert((bearer_scheme() + token).skip(bearer_scheme().len() as int) =~= token);
}

} // verus!
