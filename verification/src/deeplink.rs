//! Deep links: mapping an externally supplied URL back to a catalog
//! identifier.

use vstd::prelude::*;
use crate::text::{split_char, split_chars, str_to_chars, string_from_chars};

verus! {

/// The catalog identifier named by an inbound URL: the fifth slash-segment
/// (`https:`, an empty segment, the host and the source path come first), or
/// empty when the URL is too short.  Chapter deep-linking is out of scope:
/// later segments are ignored.
pub open spec fn deep_link_id(url: Seq<char>) -> Seq<char> {
    let segs = split_char(url, '/');
    if segs.len() >= 5 {
        segs[4]
    } else {
        Seq::<char>::empty()
    }
}

/// Resolves an inbound URL to the catalog identifier of the title it names;
/// the caller then fetches the title's detail page as usual.
pub fn handle_url(url: &str) -> (id: String)
    ensures
        id@ == deep_link_id(url@),
{
    let chars = str_to_chars(url);
    let segs = split_chars(&chars, '/');
    if segs.len() >= 5 {
        string_from_chars(&segs[4])
    } else {
        let empty: Vec<char> = Vec::new();
        string_from_chars(&empty)
    }
}

} // verus!
