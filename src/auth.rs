use vstd::prelude::*;

use crate::text::{lemma_trimmed_idempotent, trim, trimmed};

verus! {

/// The credential held by the cache file, given the file's text: the text
/// without surrounding white space; none where the file could not be read.
pub fn get_cached_token(contents: Option<&str>) -> (r: Option<String>)
    ensures
        match contents {
            Some(c) => r matches Some(t) && t@ == trimmed(c@),
            None => r is None,
        },
{
    match contents {
        Some(c) => Some(trim(c)),
        None => None,
    }
}

/// The credential entered at the prompt, given the line read there: the
/// line without surrounding white space. It is both stored in the cache and
/// used. None only where the line could not be read.
pub fn get_new_token(line: Option<&str>) -> (r: Option<String>)
    ensures
        match line {
            Some(l) => r matches Some(t) && t@ == trimmed(l@),
            None => r is None,
        },
{
    match line {
        Some(l) => Some(trim(l)),
        None => None,
    }
}

/// A credential entered at the prompt, stored, and read back from the cache
/// is the credential without its surrounding white space.
pub proof fn lemma_token_round_trip(entered: Seq<char>)
    ensures
        trimmed(trimmed(entered)) == trimmed(entered),
{
    lemma_trimmed_idempotent(entered);
}

} // verus!
