//! Chapter rows: recovering a chapter number from a chapter's path segment,
//! and assembling chapter entries from the raw rows of the AJAX chapter list.

use vstd::prelude::*;
use crate::dates::{resolve_date_spec, resolve_date};
use crate::ident::{chapter_id, extract_chapter_id};
use crate::num::{token_value, pow10, lemma_digits_val_bound, lemma_pow10_le, max_token_digits};
use crate::num::token_value_x;
use crate::profile::MadaraSiteData;
use crate::text::{
    split_char,
    split_chars,
    lemma_split_char_len,
    str_to_chars,
    string_from_chars,
    find_char,
    find_char_at,
    trim_spec,
    trim_chars,
};

verus! {

/// The index of the first token with a numeric reading, or the token count
/// when none has one.
pub open spec fn first_numeric(tokens: Seq<Seq<char>>) -> int
    decreases tokens.len(),
{
    if tokens.len() == 0 {
        0
    } else if token_value(tokens[0]) is Some {
        0
    } else {
        1 + first_numeric(tokens.skip(1))
    }
}

proof fn lemma_first_numeric_at(tokens: Seq<Seq<char>>, i: int)
    requires
        0 <= i <= tokens.len(),
        forall|j: int| 0 <= j < i ==> token_value(#[trigger] tokens[j]) is None,
        i < tokens.len() ==> token_value(tokens[i]) is Some,
    ensures
        first_numeric(tokens) == i,
    decreases i,
{
    if i > 0 {
        lemma_first_numeric_at(tokens.skip(1), i - 1);
    }
}

/// A numeric token reading is a bounded non-negative value.
pub proof fn lemma_token_value_bound(t: Seq<char>)
    requires
        token_value(t) is Some,
    ensures
        0 <= token_value(t).unwrap() < pow10(max_token_digits() as nat),
{
    if 1 <= t.len() <= max_token_digits() && crate::num::all_digits(t) {
        lemma_digits_val_bound(t);
        lemma_pow10_le(t.len(), max_token_digits() as nat);
    } else {
        lemma_pow10_le(1nat, max_token_digits() as nat);
        assert(pow10(1nat) == 10) by {
            reveal_with_fuel(pow10, 2);
        }
    }
}

/// The chapter number, in tenths, read from a hyphen-token list: the first
/// numeric token gives the whole part; the final token, when it also reads as
/// a number and stands after the first, contributes its value as tenths.  No
/// numeric token leaves the number at zero.
///
/// The heuristic is a known compromise: titles with several embedded numbers
/// can misparse, and the rule is kept as it is rather than "fixed", since the
/// sites' inconsistent naming leaves no better one.
pub open spec fn chapter_tenths_of_tokens(tokens: Seq<Seq<char>>) -> int {
    let fi = first_numeric(tokens);
    if fi >= tokens.len() {
        0
    } else {
        let whole = token_value(tokens[fi]).unwrap();
        let last = tokens.len() - 1;
        if last > fi && token_value(tokens[last]) is Some {
            whole * 10 + token_value(tokens[last]).unwrap()
        } else {
            whole * 10
        }
    }
}

/// The path segment the chapter number is read from: the second-to-last
/// slash-segment of the identifier (a trailing slash yields an empty final
/// segment, so this is normally the last real segment), or the whole
/// identifier when it has no slash.
pub open spec fn chapter_segment(id: Seq<char>) -> Seq<char> {
    let segs = split_char(id, '/');
    if segs.len() >= 2 {
        segs[segs.len() - 2]
    } else {
        segs[0]
    }
}

/// The chapter number, in tenths, recovered from a chapter identifier.
pub open spec fn chapter_tenths(id: Seq<char>) -> int {
    chapter_tenths_of_tokens(split_char(chapter_segment(id), '-'))
}

/// Recovers the chapter number from a chapter identifier, scaled to tenths so
/// that `".../chapitre-062-5/"` yields `625`.
pub fn chapter_number_tenths(id: &str) -> (r: u64)
    ensures
        r as int == chapter_tenths(id@),
{
    let chars = str_to_chars(id);
    let segs = split_chars(&chars, '/');
    proof {
        lemma_split_char_len(id@, '/');
    }
    let seg: &Vec<char> = if segs.len() >= 2 {
        &segs[segs.len() - 2]
    } else {
        &segs[0]
    };
    assert(seg@ == chapter_segment(id@));
    let tokens = split_chars(seg, '-');
    let ghost spec_tokens = split_char(chapter_segment(id@), '-');
    let n = tokens.len();
    let mut i: usize = 0;
    let mut whole: u64 = 0;
    let mut found = false;
    while i < n
        invariant_except_break
            i <= n,
            !found,
        invariant
            n == spec_tokens.len(),
            tokens@.len() == n,
            forall|k: int| 0 <= k < n ==> #[trigger] tokens@[k]@ == spec_tokens[k],
            forall|j: int| 0 <= j < i ==> token_value(#[trigger] spec_tokens[j]) is None,
        ensures
            found ==> i < n && token_value(spec_tokens[i as int]) == Some(whole as int),
            !found ==> i == n,
        decreases n - i,
    {
        match token_value_x(&tokens[i]) {
            Some(v) => {
                whole = v;
                found = true;
                break;
            },
            None => {
                i = i + 1;
            },
        }
    }
    if !found {
        proof {
            lemma_first_numeric_at(spec_tokens, n as int);
        }
        return 0;
    }
    proof {
        lemma_first_numeric_at(spec_tokens, i as int);
        lemma_token_value_bound(spec_tokens[i as int]);
        assert(pow10(max_token_digits() as nat) == 1000000000000000) by {
            reveal_with_fuel(pow10, 16);
        }
    }
    let last = n - 1;
    if last > i {
        match token_value_x(&tokens[last]) {
            Some(f) => {
                proof {
                    lemma_token_value_bound(spec_tokens[last as int]);
                }
                return whole * 10 + f;
            },
            None => {
                return whole * 10;
            },
        }
    }
    whole * 10
}

/// One selected row of the AJAX chapter list.
pub struct ChapterRow {
    /// `href` of the row's anchor.
    pub href: String,
    /// Text of the row's anchor.
    pub link_text: String,
    /// Text of the row's release-date element.
    pub date_text: String,
}

/// The mathematical shape of a chapter row.
#[verifier::ext_equal]
pub struct ChapterRowView {
    pub href: Seq<char>,
    pub link_text: Seq<char>,
    pub date_text: Seq<char>,
}

impl View for ChapterRow {
    type V = ChapterRowView;

    open spec fn view(&self) -> ChapterRowView {
        ChapterRowView { href: self.href@, link_text: self.link_text@, date_text: self.date_text@ }
    }
}

impl DeepView for ChapterRow {
    type V = ChapterRowView;

    open spec fn deep_view(&self) -> ChapterRowView {
        self.view()
    }
}

/// One chapter entry, as handed to the hosting reader application.
pub struct Chapter {
    /// Identifier: the href with the `{base}/` and `{source_path}/` prefixes
    /// stripped.
    pub id: String,
    /// Title: the link text after its first hyphen, trimmed; empty when the
    /// text has no hyphen.
    pub title: String,
    /// Chapter number in tenths; zero when no numeric token was found.
    pub chapter_tenths: u64,
    /// Volume number in tenths; this engine never determines one.
    pub volume_tenths: Option<u64>,
    /// Publication timestamp, seconds since the Unix epoch.
    pub date_updated: i64,
    /// Absolute URL of the chapter.
    pub url: String,
    /// Language tag, from the deployment configuration.
    pub lang: String,
}

/// The mathematical shape of a chapter entry.
#[verifier::ext_equal]
pub struct ChapterView {
    pub id: Seq<char>,
    pub title: Seq<char>,
    pub chapter_tenths: int,
    pub volume_tenths: Option<int>,
    pub date_updated: int,
    pub url: Seq<char>,
    pub lang: Seq<char>,
}

impl View for Chapter {
    type V = ChapterView;

    open spec fn view(&self) -> ChapterView {
        ChapterView {
            id: self.id@,
            title: self.title@,
            chapter_tenths: self.chapter_tenths as int,
            volume_tenths: match self.volume_tenths {
                Some(v) => Some(v as int),
                None => None,
            },
            date_updated: self.date_updated as int,
            url: self.url@,
            lang: self.lang@,
        }
    }
}

impl DeepView for Chapter {
    type V = ChapterView;

    open spec fn deep_view(&self) -> ChapterView {
        self.view()
    }
}

/// The chapter title read from a row's link text: everything after the first
/// hyphen, trimmed; empty when there is no hyphen.
pub open spec fn title_of_link(t: Seq<char>) -> Seq<char> {
    let i = find_char(t, '-');
    if i == -1 {
        Seq::<char>::empty()
    } else {
        trim_spec(t.skip(i + 1))
    }
}

/// Reads the chapter title out of a row's link text.
pub fn extract_chapter_title(t: &str) -> (r: String)
    ensures
        r@ == title_of_link(t@),
{
    let chars = str_to_chars(t);
    let n = chars.len();
    let i = find_char_at(&chars, '-');
    if i == n {
        let empty: Vec<char> = Vec::new();
        return string_from_chars(&empty);
    }
    let mut rest: Vec<char> = Vec::new();
    let mut k: usize = i + 1;
    while k < n
        invariant
            n == chars@.len(),
            i + 1 <= k <= n,
            rest@ =~= chars@.subrange(i + 1, k as int),
        decreases n - k,
    {
        rest.push(chars[k]);
        assert(rest@ =~= chars@.subrange(i + 1, k + 1));
        k = k + 1;
    }
    proof {
        assert(rest@ =~= t@.skip(i + 1));
    }
    let trimmed = trim_chars(&rest);
    string_from_chars(&trimmed)
}

/// The chapter entry derived from one row, `now` standing for the moment of
/// resolution of its date.
pub open spec fn chapter_entry(row: ChapterRowView, data: MadaraSiteData, now: int) -> ChapterView {
    let id = chapter_id(row.href, data.base_url@, data.source_path@);
    ChapterView {
        id,
        title: title_of_link(row.link_text),
        chapter_tenths: chapter_tenths(id),
        volume_tenths: None,
        date_updated: resolve_date_spec(row.date_text, now),
        url: row.href,
        lang: data.lang@,
    }
}

/// Assembles the chapter list from the selected rows of the chapter-list
/// response: one entry per row, in the order the source produced — typically
/// newest first.  This engine does not reverse the order; a caller wanting
/// chronological ascending order reverses explicitly.
pub fn get_chapter_list(data: &MadaraSiteData, rows: &Vec<ChapterRow>, now: i64) -> (r: Vec<
    Chapter,
>)
    ensures
        r.deep_view().len() == rows@.len(),
        forall|i: int|
            0 <= i < rows@.len() ==> r.deep_view()[i] == chapter_entry(
                #[trigger] rows.deep_view()[i],
                *data,
                now as int,
            ),
{
    let n = rows.len();
    let mut r: Vec<Chapter> = Vec::new();
    let mut i: usize = 0;
    while i < n
        invariant
            n == rows@.len(),
            rows.deep_view().len() == n,
            i <= n,
            r.deep_view().len() == i,
            forall|k: int|
                0 <= k < i ==> r.deep_view()[k] == chapter_entry(
                    #[trigger] rows.deep_view()[k],
                    *data,
                    now as int,
                ),
        decreases n - i,
    {
        let row = &rows[i];
        proof {
            assert(rows.deep_view()[i as int] == rows@[i as int].deep_view());
        }
        let id = extract_chapter_id(
            row.href.as_str(),
            data.base_url.as_str(),
            data.source_path.as_str(),
        );
        let tenths = chapter_number_tenths(id.as_str());
        let title = extract_chapter_title(row.link_text.as_str());
        let date_updated = resolve_date(row.date_text.as_str(), now);
        let entry = Chapter {
            id,
            title,
            chapter_tenths: tenths,
            volume_tenths: None,
            date_updated,
            url: row.href.clone(),
            lang: data.lang.clone(),
        };
        proof {
            assert(entry.deep_view() =~= chapter_entry(rows.deep_view()[i as int], *data,
            now as int));
        }
        r.push(entry);
        i = i + 1;
    }
    r
}

} // verus!
