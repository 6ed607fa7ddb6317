//! Request construction: search URLs, listing AJAX bodies, chapter-list
//! requests and detail URLs.
//!
//! A browse operation is either a search (a title filter is present) or a
//! listing keyed by a sort metric; listings go through the template's shared
//! `admin-ajax.php` endpoint with an `application/x-www-form-urlencoded`
//! body.  The caller-visible page argument is passed through to search URLs
//! and translated to the 1-indexed form field by subtracting one.

use vstd::prelude::*;
use vstd::utf8::encode_utf8;
use crate::num::{dec_int, i64_to_dec_chars};
use crate::profile::MadaraSiteData;
use crate::text::{lower_seq, lower_chars, chars_eq_str, str_to_chars, string_from_chars};

verus! {

/// A byte the query encoder passes through unescaped: an ASCII letter or
/// digit.
pub open spec fn keep_byte(b: u8) -> bool {
    (97 <= b && b <= 122) || (65 <= b && b <= 90) || (48 <= b && b <= 57)
}

/// The lower-case hex digit for `n` in `0..16`.
pub open spec fn hex_char(n: int) -> char {
    if n < 10 {
        (48 + n) as char
    } else {
        (87 + n) as char
    }
}

/// Percent-encoding of a byte string: letters and digits pass through, every
/// other byte becomes `%` and two lower-case hex digits.
pub open spec fn urlencode_bytes(bs: Seq<u8>) -> Seq<char>
    decreases bs.len(),
{
    if bs.len() == 0 {
        Seq::<char>::empty()
    } else {
        let b = bs[0];
        (if keep_byte(b) {
            seq![b as char]
        } else {
            seq!['%', hex_char(b as int / 16), hex_char(b as int % 16)]
        }) + urlencode_bytes(bs.skip(1))
    }
}

/// Percent-encodes a byte string.
pub fn urlencode(bs: &Vec<u8>) -> (r: Vec<char>)
    ensures
        r@ == urlencode_bytes(bs@),
{
    let n = bs.len();
    let mut r: Vec<char> = Vec::new();
    let mut i: usize = 0;
    proof {
        assert(bs@.skip(0) =~= bs@);
    }
    while i < n
        invariant
            n == bs@.len(),
            i <= n,
            r@ + urlencode_bytes(bs@.skip(i as int)) =~= urlencode_bytes(bs@),
        decreases n - i,
    {
        let b = bs[i];
        proof {
            assert(bs@.skip(i as int)[0] == bs@[i as int]);
            assert(bs@.skip(i as int).skip(1) =~= bs@.skip(i + 1));
        }
        if (97 <= b && b <= 122) || (65 <= b && b <= 90) || (48 <= b && b <= 57) {
            r.push(b as char);
        } else {
            r.push('%');
            let hi = b / 16;
            let lo = b % 16;
            if hi < 10 {
                r.push(((48 + hi) as u8) as char);
            } else {
                r.push(((87 + hi) as u8) as char);
            }
            if lo < 10 {
                r.push(((48 + lo) as u8) as char);
            } else {
                r.push(((87 + lo) as u8) as char);
            }
        }
        proof {
            assert(r@ + urlencode_bytes(bs@.skip(i + 1)) =~= urlencode_bytes(bs@));
        }
        i = i + 1;
    }
    proof {
        assert(bs@.skip(n as int) =~= Seq::<u8>::empty());
        assert(r@ =~= urlencode_bytes(bs@));
    }
    r
}

/// One element of a browse filter set.  The engine acts on title-text
/// filters; every other filter kind is ignored.
pub enum Filter {
    /// A title-text query.
    Title(String),
    /// Any filter kind this engine does not interpret.
    Other,
}

/// The encoded search string of one title: the title is lower-cased and
/// percent-encoded, working on its UTF-8 bytes.
pub open spec fn encoded_title(t: Seq<char>) -> Seq<char> {
    urlencode_bytes(encode_utf8(lower_seq(t)))
}

/// The concatenated encoded search terms of a filter set, in order.
pub open spec fn search_terms(filters: Seq<Filter>) -> Seq<char>
    decreases filters.len(),
{
    if filters.len() == 0 {
        Seq::<char>::empty()
    } else {
        (match filters[0] {
            Filter::Title(t) => encoded_title(t@),
            Filter::Other => Seq::<char>::empty(),
        }) + search_terms(filters.skip(1))
    }
}

/// Some filter carries a title query.
pub open spec fn has_title(filters: Seq<Filter>) -> bool {
    exists|i: int| 0 <= i < filters.len() && filters[i] is Title
}

/// The search URL for a filter set: paginated search with the encoded terms
/// and the fixed `wp-manga` post type.
pub open spec fn search_url(data: MadaraSiteData, filters: Seq<Filter>, page: int) -> Seq<char> {
    data.base_url@ + "/"@ + data.search_path@ + "/"@ + dec_int(page) + "/?s="@ + search_terms(
        filters,
    ) + "&post_type=wp-manga"@
}

/// Lower-cases and percent-encodes one title query.
fn encode_title_x(t: &str) -> (r: Vec<char>)
    ensures
        r@ == encoded_title(t@),
{
    let chars = str_to_chars(t);
    let lowered = lower_chars(&chars);
    let lowered_s = string_from_chars(&lowered);
    let bytes = lowered_s.as_str().as_bytes_vec();
    urlencode(&bytes)
}

/// Builds the browse request for a filter set: with a title filter present,
/// the search URL and the search marker set; otherwise the bare base URL,
/// and the caller browses the default listing instead.
pub fn get_filtered_url(filters: &Vec<Filter>, page: i32, data: &MadaraSiteData) -> (r: (
    String,
    bool,
))
    ensures
        r.1 == has_title(filters@),
        r.1 ==> r.0@ == search_url(*data, filters@, page as int),
        !r.1 ==> r.0@ == data.base_url@,
{
    let n = filters.len();
    let mut terms: Vec<char> = Vec::new();
    let mut searching = false;
    let mut i: usize = 0;
    proof {
        assert(filters@.skip(0) =~= filters@);
    }
    while i < n
        invariant
            n == filters@.len(),
            i <= n,
            terms@ + search_terms(filters@.skip(i as int)) =~= search_terms(filters@),
            searching == exists|j: int| 0 <= j < i && filters@[j] is Title,
        decreases n - i,
    {
        proof {
            assert(filters@.skip(i as int)[0] == filters@[i as int]);
            assert(filters@.skip(i as int).skip(1) =~= filters@.skip(i + 1));
        }
        match &filters[i] {
            Filter::Title(t) => {
                let mut enc = encode_title_x(t.as_str());
                terms.append(&mut enc);
                searching = true;
            },
            Filter::Other => {},
        }
        proof {
            assert(terms@ + search_terms(filters@.skip(i + 1)) =~= search_terms(filters@));
        }
        i = i + 1;
    }
    proof {
        assert(filters@.skip(n as int) =~= Seq::<Filter>::empty());
        assert(terms@ =~= search_terms(filters@));
    }
    if searching {
        let mut url = String::new();
        url.append(data.base_url.as_str());
        url.append("/");
        url.append(data.search_path.as_str());
        url.append("/");
        let page_chars = i64_to_dec_chars(page as i64);
        let page_s = string_from_chars(&page_chars);
        url.append(page_s.as_str());
        url.append("/?s=");
        let terms_s = string_from_chars(&terms);
        url.append(terms_s.as_str());
        url.append("&post_type=wp-manga");
        proof {
            assert(url@ =~= search_url(*data, filters@, page as int));
        }
        (url, true)
    } else {
        let url = data.base_url.clone();
        (url, false)
    }
}

/// The request a browse operation must issue: a search GET carrying the
/// deployment's gating cookies, or a listing POST with a form body.
pub enum BrowseRequest {
    /// GET `url` with the `Cookie` header set to `cookies`.
    Search { url: String, cookies: String },
    /// POST `url` with the `application/x-www-form-urlencoded` body `body`.
    Listing { url: String, body: String },
}

/// Builds the browse request for a filter set and page: a search request when
/// a title filter is present, else the default latest-update listing.
pub fn get_manga_list(filters: &Vec<Filter>, page: i32, data: &MadaraSiteData) -> (r:
    BrowseRequest)
    ensures
        has_title(filters@) ==> (r matches BrowseRequest::Search { url, cookies } && url@
            == search_url(*data, filters@, page as int) && cookies@ == data.search_cookies@),
        !has_title(filters@) ==> (r matches BrowseRequest::Listing { url, body } && url@
            == ajax_url(*data) && body@ == ajax_body("_latest_update"@, page as int)),
{
    let (url, did_search) = get_filtered_url(filters, page, data);
    if did_search {
        BrowseRequest::Search { url, cookies: data.search_cookies.clone() }
    } else {
        let (url, body) = get_series_page(data, "_latest_update", page);
        BrowseRequest::Listing { url, body }
    }
}

/// The endpoint listings are fetched from.
pub open spec fn ajax_url(data: MadaraSiteData) -> Seq<char> {
    data.base_url@ + "/wp-admin/admin-ajax.php"@
}

/// The form body of a listing request: the `madara_load_more` action, the
/// 0-indexed page, the fixed archive template parameters, the sort metric
/// key, and descending order over `wp-manga` posts.
pub open spec fn ajax_body(listing_key: Seq<char>, page: int) -> Seq<char> {
    "action=madara_load_more&page="@ + dec_int(page - 1)
        + "&template=madara-core%2Fcontent%2Fcontent-archive&vars%5Bpaged%5D=1&vars%5Borderby%5D=meta_value_num&vars%5Btemplate%5D=archive&vars%5Bsidebar%5D=full&vars%5Bpost_type%5D=wp-manga&vars%5Bpost_status%5D=publish&vars%5Bmeta_key%5D="@
        + listing_key
        + "&vars%5Border%5D=desc&vars%5Bmeta_query%5D%5Brelation%5D=OR&vars%5Bmanga_archives_item_layout%5D=big_thumbnail"@
}

/// Builds the listing request for one sort metric: the shared AJAX endpoint
/// and the form body asking for the (1-indexed) page of that listing.
pub fn get_series_page(data: &MadaraSiteData, listing: &str, page: i32) -> (r: (String, String))
    ensures
        r.0@ == ajax_url(*data),
        r.1@ == ajax_body(listing@, page as int),
{
    let mut url = String::new();
    url.append(data.base_url.as_str());
    url.append("/wp-admin/admin-ajax.php");
    let mut body = String::new();
    body.append("action=madara_load_more&page=");
    let page_chars = i64_to_dec_chars(page as i64 - 1);
    let page_s = string_from_chars(&page_chars);
    body.append(page_s.as_str());
    body.append(
        "&template=madara-core%2Fcontent%2Fcontent-archive&vars%5Bpaged%5D=1&vars%5Borderby%5D=meta_value_num&vars%5Btemplate%5D=archive&vars%5Bsidebar%5D=full&vars%5Bpost_type%5D=wp-manga&vars%5Bpost_status%5D=publish&vars%5Bmeta_key%5D=",
    );
    body.append(listing);
    body.append(
        "&vars%5Border%5D=desc&vars%5Bmeta_query%5D%5Brelation%5D=OR&vars%5Bmanga_archives_item_layout%5D=big_thumbnail",
    );
    proof {
        assert(url@ =~= ajax_url(*data));
        assert(body@ =~= ajax_body(listing@, page as int));
    }
    (url, body)
}

/// The sort metric key of a named listing: the localized "popular" name
/// selects all-time views, the "trending" name weekly views, and any other
/// name the latest-update default.
pub open spec fn listing_key(data: MadaraSiteData, name: Seq<char>) -> Seq<char> {
    if name == data.popular@ {
        "_wp_manga_views"@
    } else if name == data.trending@ {
        "_wp_manga_week_views_value"@
    } else {
        "_latest_update"@
    }
}

/// Builds the listing request for a named listing, resolving the name to its
/// sort metric key.
pub fn get_manga_listing(data: &MadaraSiteData, name: &str, page: i32) -> (r: (String, String))
    ensures
        r.0@ == ajax_url(*data),
        r.1@ == ajax_body(listing_key(*data, name@), page as int),
{
    let name_chars = str_to_chars(name);
    if chars_eq_str(&name_chars, data.popular.as_str()) {
        get_series_page(data, "_wp_manga_views", page)
    } else if chars_eq_str(&name_chars, data.trending.as_str()) {
        get_series_page(data, "_wp_manga_week_views_value", page)
    } else {
        get_series_page(data, "_latest_update", page)
    }
}

/// The URL of a title or chapter page: `{base}/{source_path}/{id}`.
pub open spec fn source_url(data: MadaraSiteData, id: Seq<char>) -> Seq<char> {
    data.base_url@ + "/"@ + data.source_path@ + "/"@ + id
}

/// Builds the URL a title's detail page or a chapter's page list is fetched
/// from.
pub fn get_source_url(data: &MadaraSiteData, id: &str) -> (r: String)
    ensures
        r@ == source_url(*data, id@),
{
    let mut url = String::new();
    url.append(data.base_url.as_str());
    url.append("/");
    url.append(data.source_path.as_str());
    url.append("/");
    url.append(id);
    proof {
        assert(url@ =~= source_url(*data, id@));
    }
    url
}

/// The form body of the chapter-list POST.
pub open spec fn chapters_body(int_id: Seq<char>) -> Seq<char> {
    "action=manga_get_chapters&manga="@ + int_id
}

/// The request a chapter-list fetch must issue: one of the template's two
/// transport variants.
pub enum ChapterListRequest {
    /// GET `url`: the variant selected by `alt_ajax`, where the list hangs
    /// off the title's own path.
    Get { url: String },
    /// POST `url` with the `application/x-www-form-urlencoded` body `body`:
    /// the shared-endpoint variant.
    Post { url: String, body: String },
}

/// Builds the chapter-list request for a title.  `int_id` is the site's
/// internal numeric identifier of the title, resolved by the caller from the
/// detail page's markup; only the shared-endpoint variant sends it.
pub fn get_chapter_list_request(data: &MadaraSiteData, manga_id: &str, int_id: &str) -> (r:
    ChapterListRequest)
    ensures
        data.alt_ajax ==> (r matches ChapterListRequest::Get { url } && url@ == source_url(
            *data,
            manga_id@,
        ) + "/ajax/chapters"@),
        !data.alt_ajax ==> (r matches ChapterListRequest::Post { url, body } && url@ == ajax_url(
            *data,
        ) && body@ == chapters_body(int_id@)),
{
    if data.alt_ajax {
        let mut u = get_source_url(data, manga_id);
        u.append("/ajax/chapters");
        ChapterListRequest::Get { url: u }
    } else {
        let mut u = String::new();
        u.append(data.base_url.as_str());
        u.append("/wp-admin/admin-ajax.php");
        proof {
            assert(u@ =~= ajax_url(*data));
        }
        let mut body = String::new();
        body.append("action=manga_get_chapters&manga=");
        body.append(int_id);
        ChapterListRequest::Post { url: u, body }
    }
}

} // verus!
