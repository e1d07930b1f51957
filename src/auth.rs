//! The access check applied before a request reaches the dispatcher.
use vstd::prelude::*;
use crate::text::{opt_view, text_eq};

verus! {

/// The token a request presents: the cookie's if there is one, else the
/// query parameter's.
pub open spec fn presented_token(cookie: Option<Seq<char>>, query: Option<Seq<char>>) -> Option<
    Seq<char>,
> {
    if cookie is Some {
        cookie
    } else {
        query
    }
}

/// Whether a request may proceed: it presents a token, and that token is the
/// expected secret.
pub fn is_authorized(cookie: Option<&str>, query: Option<&str>, expected: &str) -> (r: bool)
    ensures
        r == (presented_token(opt_view(cookie), opt_view(query)) == Some(expected@)),
{
    let token = match cookie {
        Some(c) => Some(c),
        None => query,
    };
    match token {
        Some(t) => text_eq(t, expected),
        None => false,
    }
}

} // verus!
