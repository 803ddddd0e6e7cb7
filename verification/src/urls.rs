use vstd::prelude::*;

verus! {

/// The serialization of the URL that `url::Url::join` resolves from `input`
/// against the URL that `url::Url::parse` reads from `base`; `None` where
/// either fails.
pub uninterp spec fn url_join(base: Seq<char>, input: Seq<char>) -> Option<Seq<char>>;

/// The serialization of the URL that `url::Url::parse` reads from `url`,
/// after `append_pair(key, value)` on its `query_pairs_mut()`; `None` where
/// the parse fails.
pub uninterp spec fn url_append_pair(url: Seq<char>, key: Seq<char>, value: Seq<char>) -> Option<Seq<char>>;

/// The character sequence of an optional string.
pub open spec fn opt_view(s: Option<String>) -> Option<Seq<char>> {
    match s {
        Some(s) => Some(s@),
        None => None,
    }
}

/// Calls `url::Url::parse(base)` and then `join(input)` on the result.
/// Claims only that the result is the named `url_join` of the arguments.
#[verifier::external_body]
pub(crate) fn join_url(base: &str, input: &str) -> (r: Option<String>)
    ensures
        opt_view(r) == url_join(base@, input@),
{
    match url::Url::parse(base) {
        Ok(base) => match base.join(input) {
            Ok(joined) => Some(String::from(joined)),
            Err(_) => None,
        },
        Err(_) => None,
    }
}

/// Calls `url::Url::parse(url)` and then `query_pairs_mut().append_pair(key,
/// value)` on the result. Claims only that the result is the named
/// `url_append_pair` of the arguments.
#[verifier::external_body]
pub(crate) fn append_query_pair(url: &str, key: &str, value: &str) -> (r: Option<String>)
    ensures
        opt_view(r) == url_append_pair(url@, key@, value@),
{
    match url::Url::parse(url) {
        Ok(mut url) => {
            url.query_pairs_mut().append_pair(key, value);
            Some(String::from(url))
        },
        Err(_) => None,
    }
}

} // verus!
