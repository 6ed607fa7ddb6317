//! Catalog and chapter identifiers.
//!
//! A catalog identifier is derived from a site's href by deleting every
//! occurrence of the base URL, of the source path, and of `/`; a chapter
//! identifier keeps its internal slashes and loses only the `{base}/` and
//! `{source_path}/` prefixes.  The derivation is deterministic, so repeated
//! scrapes of the same page yield the same identifiers.

use vstd::prelude::*;
use crate::text::{
    contains_seq,
    matches_at,
    remove_all,
    lemma_remove_all_absent,
    remove_all_chars,
    str_to_chars,
    string_from_chars,
};

verus! {

/// The catalog identifier derived from an anchor href: the href with every
/// occurrence of the base URL, of the source path, and of `/` deleted.
pub open spec fn catalog_id(href: Seq<char>, base: Seq<char>, path: Seq<char>) -> Seq<char> {
    remove_all(remove_all(remove_all(href, base), path), seq!['/'])
}

/// The chapter identifier derived from an anchor href: the href with every
/// occurrence of `{base}/` and of `{path}/` deleted.
pub open spec fn chapter_id(href: Seq<char>, base: Seq<char>, path: Seq<char>) -> Seq<char> {
    remove_all(remove_all(href, base + seq!['/']), path + seq!['/'])
}

/// Derives the catalog identifier of an item from its anchor href.
pub fn extract_catalog_id(href: &str, base: &str, path: &str) -> (r: String)
    ensures
        r@ == catalog_id(href@, base@, path@),
{
    let href_c = str_to_chars(href);
    let base_c = str_to_chars(base);
    let path_c = str_to_chars(path);
    let slash: Vec<char> = vec!['/'];
    assert(slash@ =~= seq!['/']);
    let a = remove_all_chars(&href_c, &base_c);
    let b = remove_all_chars(&a, &path_c);
    let c = remove_all_chars(&b, &slash);
    string_from_chars(&c)
}

/// Derives the chapter identifier of a chapter row from its anchor href.
pub fn extract_chapter_id(href: &str, base: &str, path: &str) -> (r: String)
    ensures
        r@ == chapter_id(href@, base@, path@),
{
    let href_c = str_to_chars(href);
    let mut base_c = str_to_chars(base);
    base_c.push('/');
    let mut path_c = str_to_chars(path);
    path_c.push('/');
    proof {
        assert(base_c@ =~= base@ + seq!['/']);
        assert(path_c@ =~= path@ + seq!['/']);
    }
    let a = remove_all_chars(&href_c, &base_c);
    let b = remove_all_chars(&a, &path_c);
    string_from_chars(&b)
}

/// A single-character pattern occurs exactly where the character does.
proof fn lemma_contains_single(s: Seq<char>, c: char)
    ensures
        contains_seq(s, seq![c]) <==> exists|i: int| 0 <= i < s.len() && s[i] == c,
{
    if contains_seq(s, seq![c]) {
        let i = choose|i: int| matches_at(s, seq![c], i);
        assert(s.subrange(i, i + 1)[0] == s[i]);
    }
    if exists|i: int| 0 <= i < s.len() && s[i] == c {
        let i = choose|i: int| 0 <= i < s.len() && s[i] == c;
        assert(s.subrange(i, i + 1) =~= seq![c]);
        assert(matches_at(s, seq![c], i));
    }
}

/// Deleting every occurrence of a character leaves none behind.
proof fn lemma_remove_char_free(s: Seq<char>, c: char)
    ensures
        forall|i: int|
            0 <= i < remove_all(s, seq![c]).len() ==> #[trigger] remove_all(s, seq![c])[i] != c,
    decreases s.len(),
{
    let pat = seq![c];
    if s.len() == 0 {
    } else if matches_at(s, pat, 0) {
        lemma_remove_char_free(s.skip(1), c);
        assert(s.skip(pat.len() as int) =~= s.skip(1));
        let rest = remove_all(s.skip(1), pat);
        assert(remove_all(s, pat) == rest);
        assert forall|i: int| 0 <= i < remove_all(s, pat).len() implies #[trigger] remove_all(
            s,
            pat,
        )[i] != c by {
            assert(remove_all(s, pat)[i] == rest[i]);
        }
    } else {
        assert(s[0] != c) by {
            if s[0] == c {
                assert(s.subrange(0, 1) =~= pat);
                assert(matches_at(s, pat, 0));
            }
        }
        lemma_remove_char_free(s.skip(1), c);
        let rest = remove_all(s.skip(1), pat);
        assert(remove_all(s, pat) == seq![s[0]] + rest);
        assert forall|i: int| 0 <= i < remove_all(s, pat).len() implies #[trigger] remove_all(
            s,
            pat,
        )[i] != c by {
            if i == 0 {
                assert(remove_all(s, pat)[0] == s[0]);
            } else {
                assert(remove_all(s, pat)[i] == rest[i - 1]);
            }
        }
    }
}

/// A catalog identifier contains no slash: the derivation deletes them all.
pub proof fn lemma_catalog_id_no_slash(href: Seq<char>, base: Seq<char>, path: Seq<char>)
    ensures
        forall|i: int|
            0 <= i < catalog_id(href, base, path).len() ==> #[trigger] catalog_id(
                href,
                base,
                path,
            )[i] != '/',
{
    lemma_remove_char_free(remove_all(remove_all(href, base), path), '/');
}

/// Identifier extraction is idempotent: once an href has been reduced to an
/// identifier that no longer contains the base URL or the source path —
/// which is what a well-formed `{base}/{source_path}/{id}/...` href reduces
/// to — extracting again changes nothing.
pub proof fn lemma_catalog_id_idempotent(href: Seq<char>, base: Seq<char>, path: Seq<char>)
    requires
        !contains_seq(catalog_id(href, base, path), base),
        !contains_seq(catalog_id(href, base, path), path),
    ensures
        catalog_id(catalog_id(href, base, path), base, path) == catalog_id(href, base, path),
{
    let id = catalog_id(href, base, path);
    lemma_remove_all_absent(id, base);
    lemma_remove_all_absent(id, path);
    lemma_remove_char_free(remove_all(remove_all(href, base), path), '/');
    lemma_contains_single(id, '/');
    assert(!contains_seq(id, seq!['/']));
    lemma_remove_all_absent(id, seq!['/']);
}

} // verus!
