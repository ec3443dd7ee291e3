use vstd::prelude::*;

use reqwest::header::HeaderMap;

verus! {

#[verifier::external_type_specification]
#[verifier::external_body]
#[verifier::reject_recursive_types(T)]
pub struct ExHeaderMap<T>(reqwest::header::HeaderMap<T>);

#[verifier::external_type_specification]
#[verifier::external_body]
pub struct ExHeaderValue(reqwest::header::HeaderValue);

/// The value that each header name holds in a map, as its characters.
pub uninterp spec fn header_entries(m: HeaderMap) -> Map<Seq<char>, Seq<char>>;

/// How many values a map holds.
pub uninterp spec fn header_count(m: HeaderMap) -> nat;

/// A name that `HeaderMap::insert` takes as a static string without
/// panicking: lower-case letters and dashes, at most 64 of them.
pub open spec fn is_header_name(s: Seq<char>) -> bool {
    &&& 0 < s.len() <= 64
    &&& forall|i: int| 0 <= i < s.len() ==> ('a' <= #[trigger] s[i] <= 'z' || s[i] == '-')
}

/// Text that a header value can carry: no control character but the tab.
pub open spec fn is_header_value(s: Seq<char>) -> bool {
    forall|i: int|
        0 <= i < s.len() ==> #[trigger] s[i] == '\t' || (s[i] as u32 >= 32 && s[i] as u32 != 127)
}

/// The entries of a map with no header.
pub open spec fn no_headers() -> Map<Seq<char>, Seq<char>> {
    Map::empty()
}

/// Relies on `HeaderMap::new`: a map with no header.
#[verifier::external_body]
pub(crate) fn new_header_map() -> (r: HeaderMap)
    ensures
        header_entries(r) == no_headers(),
        header_count(r) == 0,
{
    HeaderMap::new()
}

/// Relies on `HeaderValue::from_str`, which accepts a text exactly when each
/// of its bytes is a tab or at least 32 and not 127 (every byte of a
/// character beyond ASCII is above 127), and on `HeaderMap::insert`, which
/// makes the value the name's only one, adding one value where the name had
/// none. `insert` panics when its table would
/// grow past 32768 slots; a table of that size grows only once a fifth of it
/// is in use, so a map of fewer than 6554 values always takes one more.
#[verifier::external_body]
pub(crate) fn insert_header(m: &mut HeaderMap, name: &'static str, value: &str) -> (ok: bool)
    requires
        is_header_name(name@),
        header_count(*old(m)) < 6554,
    ensures
        ok == is_header_value(value@),
        ok ==> header_entries(*final(m)) == header_entries(*old(m)).insert(name@, value@),
        ok ==> header_count(*final(m)) <= header_count(*old(m)) + 1,
        ok && !header_entries(*old(m)).contains_key(name@) ==> header_count(*final(m))
            == header_count(*old(m)) + 1,
        !ok ==> *final(m) == *old(m),
{
    match reqwest::header::HeaderValue::from_str(value) {
        Ok(v) => {
            m.insert(name, v);
            true
        },
        Err(_) => false,
    }
}

} // verus!
