//! Strings as the characters they hold.

use vstd::prelude::*;

verus! {

/// A string, where there is one, as the characters it holds.
pub open spec fn text_of(value: Option<String>) -> Option<Seq<char>> {
    match value {
        Some(text) => Some(text@),
        None => None,
    }
}

/// A list of pairs of strings as the characters they hold.
pub open spec fn pairs_view(pairs: Seq<(String, String)>) -> Seq<(Seq<char>, Seq<char>)> {
    pairs.map_values(|pair: (String, String)| (pair.0@, pair.1@))
}

} // verus!
