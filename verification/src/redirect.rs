//! Finding the credential in the redirect that the identity provider answers
//! an authorization request with.
//!
//! The provider puts the access token into the fragment of the address it
//! redirects to. The fragment is read as if it were a query: every `#` of the
//! address becomes a `?`, the result is parsed as a URL, and the first pair of
//! its query named `access_token` holds the token.

use vstd::prelude::*;
use vstd::string::*;

use crate::error::APIError;
use crate::text::pairs_view;

verus! {

/// The name under which the provider hands out the token.
pub const TOKEN_KEY: &'static str = "access_token";

/// What a token is prefixed with to make a credential.
pub const BEARER_PREFIX: &'static str = "Bearer ";

/// `location` with every `#` turned into a `?`.
pub open spec fn with_fragment_as_query(location: Seq<char>) -> Seq<char> {
    location.map_values(
        |c: char|
            if c == '#' {
                '?'
            } else {
                c
            },
    )
}

/// The pairs of names and values in the query of the URL that `text` spells,
/// decoded, in the order they stand there; `None` where `text` spells no
/// absolute URL.
pub uninterp spec fn url_query_pairs(text: Seq<char>) -> Option<Seq<(Seq<char>, Seq<char>)>>;

/// `str::replace` with the pattern `'#'` and the replacement `"?"`: a copy of
/// `location` in which each `#` has given way to a `?` and every other
/// character stands as it stood.
#[verifier::external_body]
fn fragment_as_query(location: &str) -> (text: String)
    ensures
        text@ == with_fragment_as_query(location@),
{
    location.replace('#', "?")
}

/// Parses `text` with `url::Url::parse` and reads the parsed URL's query with
/// `Url::query_pairs`, each pair as two owned strings. Both steps depend on
/// `text` alone, which is all the contract claims: it gives what they yield
/// its name, and says that a failure to parse is `None`.
#[verifier::external_body]
fn query_pairs(text: &str) -> (pairs: Option<Vec<(String, String)>>)
    ensures
        match pairs {
            Some(found) => url_query_pairs(text@) == Some(pairs_view(found@)),
            None => url_query_pairs(text@) is None,
        },
{
    match url::Url::parse(text) {
        Ok(url) => Some(url.query_pairs().into_owned().collect()),
        Err(_) => None,
    }
}

/// The value of the first pair named `key`.
pub open spec fn first_value(pairs: Seq<(Seq<char>, Seq<char>)>, key: Seq<char>) -> Option<
    Seq<char>,
>
    decreases pairs.len(),
{
    if pairs.len() == 0 {
        None
    } else if pairs[0].0 == key {
        Some(pairs[0].1)
    } else {
        first_value(pairs.drop_first(), key)
    }
}

/// The credential that a list of query pairs holds: the bearer prefix, then
/// the value of the first pair named `access_token`.
pub open spec fn credential_in_pairs(pairs: Seq<(Seq<char>, Seq<char>)>) -> Option<Seq<char>> {
    match first_value(pairs, TOKEN_KEY@) {
        Some(token) => Some(BEARER_PREFIX@ + token),
        None => None,
    }
}

/// The credential that a redirect location holds.
pub open spec fn credential_in_location(location: Seq<char>) -> Option<Seq<char>> {
    match url_query_pairs(with_fragment_as_query(location)) {
        Some(pairs) => credential_in_pairs(pairs),
        None => None,
    }
}

/// `first_value` finds a value exactly where some pair is named `key`, and
/// the value is that of the earliest such pair.
pub proof fn lemma_first_value(pairs: Seq<(Seq<char>, Seq<char>)>, key: Seq<char>)
    ensures
        match first_value(pairs, key) {
            Some(value) => exists|i: int|
                0 <= i < pairs.len() && #[trigger] pairs[i] == (key, value) && forall|j: int|
                    0 <= j < i ==> (#[trigger] pairs[j]).0 != key,
            None => forall|i: int| 0 <= i < pairs.len() ==> (#[trigger] pairs[i]).0 != key,
        },
    decreases pairs.len(),
{
    if pairs.len() > 0 && pairs[0].0 != key {
        let rest = pairs.drop_first();
        lemma_first_value(rest, key);
        match first_value(rest, key) {
            Some(value) => {
                let i = choose|i: int|
                    0 <= i < rest.len() && #[trigger] rest[i] == (key, value) && forall|j: int|
                        0 <= j < i ==> (#[trigger] rest[j]).0 != key;
                assert forall|j: int| 0 <= j < i + 1 implies (#[trigger] pairs[j]).0 != key by {
                    if j > 0 {
                        assert(pairs[j] == rest[j - 1]);
                    }
                }
            },
            None => {
                assert forall|i: int| 0 <= i < pairs.len() implies (#[trigger] pairs[i]).0
                    != key by {
                    if i > 0 {
                        assert(pairs[i] == rest[i - 1]);
                    }
                }
            },
        }
    }
}

/// The credential among the pairs of a redirect's query, or `BadFormat` where
/// no pair is named `access_token`.
pub fn token_from_pairs(pairs: &Vec<(String, String)>) -> (token: Result<String, APIError>)
    ensures
        match credential_in_pairs(pairs_view(pairs@)) {
            Some(credential) => token is Ok && token.unwrap()@ == credential,
            None => token == Err::<String, APIError>(APIError::BadFormat),
        },
{
    let key = String::from_str(TOKEN_KEY);
    let ghost all = pairs_view(pairs@);
    let mut i: usize = 0;
    assert(all.skip(0) =~= all);
    while i < pairs.len()
        invariant
            i <= pairs.len(),
            key@ == TOKEN_KEY@,
            all == pairs_view(pairs@),
            first_value(all, key@) == first_value(all.skip(i as int), key@),
        decreases pairs.len() - i,
    {
        assert(all.skip(i as int).drop_first() =~= all.skip(i as int + 1));
        if pairs[i].0 == key {
            return Ok(String::from_str(BEARER_PREFIX).concat(pairs[i].1.as_str()));
        }
        i += 1;
    }
    Err(APIError::BadFormat)
}

/// The credential in a redirect location, or `BadFormat` where the location
/// spells no URL or its fragment names no `access_token`.
pub fn token_from_location(location: &str) -> (token: Result<String, APIError>)
    ensures
        match credential_in_location(location@) {
            Some(credential) => token is Ok && token.unwrap()@ == credential,
            None => token == Err::<String, APIError>(APIError::BadFormat),
        },
{
    let text = fragment_as_query(location);
    match query_pairs(text.as_str()) {
        Some(pairs) => token_from_pairs(&pairs),
        None => Err(APIError::BadFormat),
    }
}

} // verus!
