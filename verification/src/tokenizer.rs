//! A rough token estimate for a piece of text.

use vstd::prelude::*;
use vstd::string::StrSliceExecFns;

verus! {

/// The approximate number of tokens in a text of `chars` characters:
/// one token for every four characters, rounded down.
pub open spec fn token_estimate(chars: nat) -> nat {
    chars / 4
}

/// Counts the approximate number of tokens in `text`, on the assumption
/// that one token is about four characters of English text.
pub fn count_tokens(text: &str) -> (tokens: usize)
    ensures
        tokens as nat == token_estimate(text@.len()),
{
    let char_count: usize = text.unicode_len();
    char_count / 4
}

} // verus!

