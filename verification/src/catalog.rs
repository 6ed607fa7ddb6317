//! Catalog extraction: search results, listing pages and title details.
//!
//! The caller fetches a page and selects the configured elements; each
//! selected item arrives here as a row of plain attribute and text values.
//! Extraction derives identifiers, resolves cover URLs, filters out web-novel
//! rows, and invokes the deployment's classification hooks.

use vstd::prelude::*;
use crate::hooks::{SiteHooks, DocExcerpt, MangaStatus, MangaContentRating, MangaViewer};
use crate::ident::{catalog_id, extract_catalog_id};
use crate::profile::MadaraSiteData;
use crate::query::source_url;
use crate::text::{contains_seq, lower_seq, lower_chars, contains_chars, str_to_chars};

verus! {

/// One catalog entry, as handed to the hosting reader application.
pub struct Manga {
    /// Path-derived identifier, the canonical key for downstream lookups.
    pub id: String,
    /// Display title.
    pub title: String,
    /// Cover image URL.
    pub cover: String,
    /// Author names, empty until the detail fetch.
    pub author: String,
    /// Artist names, empty until the detail fetch.
    pub artist: String,
    /// Description, empty until the detail fetch.
    pub description: String,
    /// Absolute URL of the detail page, empty until the detail fetch.
    pub url: String,
    /// Genre list, empty until the detail fetch.
    pub categories: Vec<String>,
    /// Publication status.
    pub status: MangaStatus,
    /// Content rating.
    pub nsfw: MangaContentRating,
    /// Reading direction.
    pub viewer: MangaViewer,
}

/// The mathematical shape of a catalog entry.
#[verifier::ext_equal]
pub struct MangaView {
    pub id: Seq<char>,
    pub title: Seq<char>,
    pub cover: Seq<char>,
    pub author: Seq<char>,
    pub artist: Seq<char>,
    pub description: Seq<char>,
    pub url: Seq<char>,
    pub categories: Seq<Seq<char>>,
    pub status: MangaStatus,
    pub nsfw: MangaContentRating,
    pub viewer: MangaViewer,
}

impl View for Manga {
    type V = MangaView;

    open spec fn view(&self) -> MangaView {
        MangaView {
            id: self.id@,
            title: self.title@,
            cover: self.cover@,
            author: self.author@,
            artist: self.artist@,
            description: self.description@,
            url: self.url@,
            categories: self.categories.deep_view(),
            status: self.status,
            nsfw: self.nsfw,
            viewer: self.viewer,
        }
    }
}

impl DeepView for Manga {
    type V = MangaView;

    open spec fn deep_view(&self) -> MangaView {
        self.view()
    }
}

/// One page of catalog entries, and whether another page is worth asking for.
pub struct MangaPageResult {
    pub manga: Vec<Manga>,
    pub has_more: bool,
}

/// One selected item of a search-results page: the attribute and text values
/// the engine reads from it.
pub struct SearchItem {
    /// `href` of the item's anchor.
    pub href: String,
    /// `title` attribute of the anchor.
    pub title: String,
    /// `src` of the item's image.
    pub cover_src: String,
    /// Lazy-load `data-src` of the item's image, empty when absent.
    pub cover_data_src: String,
    /// Joined text of the item's genre elements.
    pub genres_text: String,
}

/// The mathematical shape of a search item.
#[verifier::ext_equal]
pub struct SearchItemView {
    pub href: Seq<char>,
    pub title: Seq<char>,
    pub cover_src: Seq<char>,
    pub cover_data_src: Seq<char>,
    pub genres_text: Seq<char>,
}

impl View for SearchItem {
    type V = SearchItemView;

    open spec fn view(&self) -> SearchItemView {
        SearchItemView {
            href: self.href@,
            title: self.title@,
            cover_src: self.cover_src@,
            cover_data_src: self.cover_data_src@,
            genres_text: self.genres_text@,
        }
    }
}

impl DeepView for SearchItem {
    type V = SearchItemView;

    open spec fn deep_view(&self) -> SearchItemView {
        self.view()
    }
}

/// One selected item of a listing page.
pub struct ListingItem {
    /// `href` of the item's title anchor.
    pub href: String,
    /// Text of the title anchor.
    pub title: String,
    /// `src` of the item's image.
    pub cover_src: String,
    /// Lazy-load `data-src` of the item's image, empty when absent.
    pub cover_data_src: String,
    /// Text of the item's web-novel marker element, empty when absent.
    pub web_novel_text: String,
}

/// The mathematical shape of a listing item.
#[verifier::ext_equal]
pub struct ListingItemView {
    pub href: Seq<char>,
    pub title: Seq<char>,
    pub cover_src: Seq<char>,
    pub cover_data_src: Seq<char>,
    pub web_novel_text: Seq<char>,
}

impl View for ListingItem {
    type V = ListingItemView;

    open spec fn view(&self) -> ListingItemView {
        ListingItemView {
            href: self.href@,
            title: self.title@,
            cover_src: self.cover_src@,
            cover_data_src: self.cover_data_src@,
            web_novel_text: self.web_novel_text@,
        }
    }
}

impl DeepView for ListingItem {
    type V = ListingItemView;

    open spec fn deep_view(&self) -> ListingItemView {
        self.view()
    }
}

/// The image-URL-resolution rule: sites commonly lazy-load cover art, so a
/// non-empty `data-src` wins over `src`.
pub open spec fn image_url_of(data_src: Seq<char>, src: Seq<char>) -> Seq<char> {
    if data_src.len() > 0 {
        data_src
    } else {
        src
    }
}

/// Resolves an image URL from the `data-src` and `src` attribute values.
pub fn get_image_url(data_src: &String, src: &String) -> (r: String)
    ensures
        r@ == image_url_of(data_src@, src@),
{
    if data_src.as_str().unicode_len() > 0 {
        data_src.clone()
    } else {
        src.clone()
    }
}

/// A search item survives filtering when its genre text does not contain
/// "novel", case-insensitively.
pub open spec fn keep_search_item(it: SearchItemView) -> bool {
    !contains_seq(lower_seq(it.genres_text), "novel"@)
}

/// The catalog entry derived from a surviving search item: identifier from
/// the href, title from the anchor's title attribute, cover by the
/// image-URL-resolution rule, everything else left for the detail fetch, and
/// the reading direction `v` the deployment's hook assigned to the empty
/// placeholder document.
pub open spec fn search_entry(it: SearchItemView, data: MadaraSiteData, v: MangaViewer) -> MangaView {
    MangaView {
        id: catalog_id(it.href, data.base_url@, data.source_path@),
        title: it.title,
        cover: image_url_of(it.cover_data_src, it.cover_src),
        author: Seq::<char>::empty(),
        artist: Seq::<char>::empty(),
        description: Seq::<char>::empty(),
        url: Seq::<char>::empty(),
        categories: Seq::<Seq<char>>::empty(),
        status: MangaStatus::Unknown,
        nsfw: MangaContentRating::Safe,
        viewer: v,
    }
}

/// The entries of one search-results page, in item order, web-novel items
/// dropped.
pub open spec fn search_entries(
    items: Seq<SearchItemView>,
    data: MadaraSiteData,
    v: MangaViewer,
) -> Seq<MangaView> {
    items.filter_map(
        |it: SearchItemView|
            if keep_search_item(it) {
                Some(search_entry(it, data, v))
            } else {
                None
            },
    )
}

/// A listing item survives filtering when its web-novel marker element has no
/// text.
pub open spec fn keep_listing_item(it: ListingItemView) -> bool {
    it.web_novel_text.len() == 0
}

/// The catalog entry derived from a surviving listing item.
pub open spec fn listing_entry(
    it: ListingItemView,
    data: MadaraSiteData,
    v: MangaViewer,
) -> MangaView {
    MangaView {
        id: catalog_id(it.href, data.base_url@, data.source_path@),
        title: it.title,
        cover: image_url_of(it.cover_data_src, it.cover_src),
        author: Seq::<char>::empty(),
        artist: Seq::<char>::empty(),
        description: Seq::<char>::empty(),
        url: Seq::<char>::empty(),
        categories: Seq::<Seq<char>>::empty(),
        status: MangaStatus::Unknown,
        nsfw: MangaContentRating::Safe,
        viewer: v,
    }
}

/// The entries of one listing page, in item order, web-novel items dropped.
pub open spec fn listing_entries(
    items: Seq<ListingItemView>,
    data: MadaraSiteData,
    v: MangaViewer,
) -> Seq<MangaView> {
    items.filter_map(
        |it: ListingItemView|
            if keep_listing_item(it) {
                Some(listing_entry(it, data, v))
            } else {
                None
            },
    )
}

/// The reading direction hooks assign at browse time, when no document and no
/// genres are known yet: listing and search pages do not expose genre
/// metadata, so the hook sees the empty placeholder document.  Full
/// classification happens only at the detail fetch.
pub open spec fn browse_viewer<H: SiteHooks>(hooks: H) -> MangaViewer {
    hooks.viewer_spec(Seq::<char>::empty(), Seq::<char>::empty(), Seq::<Seq<char>>::empty())
}

/// Asks the hooks for the browse-time reading direction.
fn browse_viewer_x<H: SiteHooks>(hooks: &H) -> (v: MangaViewer)
    ensures
        v == browse_viewer(*hooks),
{
    let doc = DocExcerpt::empty();
    let genres: Vec<String> = Vec::new();
    let v = hooks.viewer(&doc, &genres);
    proof {
        assert(genres.deep_view() =~= Seq::<Seq<char>>::empty());
    }
    v
}

/// Extracts one page of catalog entries from the selected items of a
/// search-results page: entries in item order, items whose genre text
/// mentions "novel" (case-insensitively) dropped, and `has_more` exactly when
/// an item survived.
pub fn get_search_result<H: SiteHooks>(
    data: &MadaraSiteData,
    hooks: &H,
    items: &Vec<SearchItem>,
) -> (r: MangaPageResult)
    ensures
        r.manga.deep_view() == search_entries(items.deep_view(), *data, browse_viewer(*hooks)),
        r.has_more == (r.manga@.len() > 0),
{
    let v = browse_viewer_x(hooks);
    let ghost f = |it: SearchItemView|
        if keep_search_item(it) {
            Some(search_entry(it, *data, v))
        } else {
            None
        };
    let novel: Vec<char> = vec!['n', 'o', 'v', 'e', 'l'];
    proof {
        assert(novel@ =~= "novel"@) by {
            reveal_strlit("novel");
        }
    }
    let n = items.len();
    let mut manga: Vec<Manga> = Vec::new();
    let mut i: usize = 0;
    proof {
        assert(items.deep_view().take(0) =~= Seq::<SearchItemView>::empty());
        assert(manga.deep_view() =~= items.deep_view().take(0).filter_map(f));
    }
    while i < n
        invariant
            n == items@.len(),
            i <= n,
            items.deep_view().len() == n,
            f == (|it: SearchItemView|
                if keep_search_item(it) {
                    Some(search_entry(it, *data, v))
                } else {
                    None
                }),
            novel@ == "novel"@,
            v == browse_viewer(*hooks),
            manga.deep_view() =~= items.deep_view().take(i as int).filter_map(f),
        decreases n - i,
    {
        let ghost pre = manga.deep_view();
        let item = &items[i];
        proof {
            assert(items.deep_view()[i as int] == items@[i as int].deep_view());
        }
        let genre_chars = str_to_chars(item.genres_text.as_str());
        let lowered = lower_chars(&genre_chars);
        if !contains_chars(&lowered, &novel) {
            let id = extract_catalog_id(
                item.href.as_str(),
                data.base_url.as_str(),
                data.source_path.as_str(),
            );
            let entry = Manga {
                id,
                title: item.title.clone(),
                cover: get_image_url(&item.cover_data_src, &item.cover_src),
                author: String::new(),
                artist: String::new(),
                description: String::new(),
                url: String::new(),
                categories: Vec::new(),
                status: MangaStatus::Unknown,
                nsfw: MangaContentRating::Safe,
                viewer: v,
            };
            proof {
                assert(entry.categories.deep_view() =~= Seq::<Seq<char>>::empty());
                assert(entry.deep_view() =~= search_entry(items.deep_view()[i as int], *data, v));
            }
            manga.push(entry);
            proof {
                assert(manga.deep_view() =~= pre.push(
                    search_entry(items.deep_view()[i as int], *data, v),
                ));
            }
        } else {
            assert(!keep_search_item(items.deep_view()[i as int]));
        }
        proof {
            items.deep_view().lemma_filter_map_take_succ(f, i as int);
            assert(manga.deep_view() =~= items.deep_view().take(i + 1).filter_map(f));
        }
        i = i + 1;
    }
    proof {
        assert(items.deep_view().take(n as int) =~= items.deep_view());
    }
    let has_more = manga.len() > 0;
    MangaPageResult { manga, has_more }
}

/// Extracts one page of catalog entries from the selected items of a listing
/// page: entries in item order, items flagged as web novels dropped, and
/// `has_more` exactly when an item survived.
pub fn get_listing_result<H: SiteHooks>(
    data: &MadaraSiteData,
    hooks: &H,
    items: &Vec<ListingItem>,
) -> (r: MangaPageResult)
    ensures
        r.manga.deep_view() == listing_entries(items.deep_view(), *data, browse_viewer(*hooks)),
        r.has_more == (r.manga@.len() > 0),
{
    let v = browse_viewer_x(hooks);
    let ghost f = |it: ListingItemView|
        if keep_listing_item(it) {
            Some(listing_entry(it, *data, v))
        } else {
            None
        };
    let n = items.len();
    let mut manga: Vec<Manga> = Vec::new();
    let mut i: usize = 0;
    proof {
        assert(items.deep_view().take(0) =~= Seq::<ListingItemView>::empty());
        assert(manga.deep_view() =~= items.deep_view().take(0).filter_map(f));
    }
    while i < n
        invariant
            n == items@.len(),
            i <= n,
            items.deep_view().len() == n,
            f == (|it: ListingItemView|
                if keep_listing_item(it) {
                    Some(listing_entry(it, *data, v))
                } else {
                    None
                }),
            v == browse_viewer(*hooks),
            manga.deep_view() =~= items.deep_view().take(i as int).filter_map(f),
        decreases n - i,
    {
        let ghost pre = manga.deep_view();
        let item = &items[i];
        proof {
            assert(items.deep_view()[i as int] == items@[i as int].deep_view());
        }
        if item.web_novel_text.as_str().unicode_len() == 0 {
            let id = extract_catalog_id(
                item.href.as_str(),
                data.base_url.as_str(),
                data.source_path.as_str(),
            );
            let entry = Manga {
                id,
                title: item.title.clone(),
                cover: get_image_url(&item.cover_data_src, &item.cover_src),
                author: String::new(),
                artist: String::new(),
                description: String::new(),
                url: String::new(),
                categories: Vec::new(),
                status: MangaStatus::Unknown,
                nsfw: MangaContentRating::Safe,
                viewer: v,
            };
            proof {
                assert(entry.categories.deep_view() =~= Seq::<Seq<char>>::empty());
                assert(entry.deep_view() =~= listing_entry(items.deep_view()[i as int], *data, v));
            }
            manga.push(entry);
            proof {
                assert(manga.deep_view() =~= pre.push(
                    listing_entry(items.deep_view()[i as int], *data, v),
                ));
            }
        }
        proof {
            items.deep_view().lemma_filter_map_take_succ(f, i as int);
            assert(manga.deep_view() =~= items.deep_view().take(i + 1).filter_map(f));
        }
        i = i + 1;
    }
    proof {
        assert(items.deep_view().take(n as int) =~= items.deep_view());
    }
    let has_more = manga.len() > 0;
    MangaPageResult { manga, has_more }
}

/// No catalog entry comes from an item whose genre text contains "novel":
/// every entry of a search page is the image of a surviving item.
pub proof fn lemma_search_excludes_novel(
    items: Seq<SearchItemView>,
    data: MadaraSiteData,
    v: MangaViewer,
    j: int,
)
    requires
        0 <= j < search_entries(items, data, v).len(),
    ensures
        exists|i: int|
            0 <= i < items.len() && keep_search_item(#[trigger] items[i]) && search_entries(
                items,
                data,
                v,
            )[j] == search_entry(items[i], data, v),
{
    let f = |it: SearchItemView|
        if keep_search_item(it) {
            Some(search_entry(it, data, v))
        } else {
            None
        };
    let out = search_entries(items, data, v);
    assert(out.contains(out[j]));
    items.lemma_filter_map_contains(f, out[j]);
    let t = choose|t: SearchItemView| #[trigger] items.contains(t) && f(t) == Some(out[j]);
    let i = choose|i: int| 0 <= i < items.len() && items[i] == t;
    assert(keep_search_item(items[i]));
    assert(search_entries(items, data, v)[j] == search_entry(items[i], data, v));
}

/// No catalog entry comes from a listing item whose web-novel marker carries
/// text: every entry of a listing page is the image of a surviving item.
pub proof fn lemma_listing_excludes_web_novel(
    items: Seq<ListingItemView>,
    data: MadaraSiteData,
    v: MangaViewer,
    j: int,
)
    requires
        0 <= j < listing_entries(items, data, v).len(),
    ensures
        exists|i: int|
            0 <= i < items.len() && keep_listing_item(#[trigger] items[i]) && listing_entries(
                items,
                data,
                v,
            )[j] == listing_entry(items[i], data, v),
{
    let f = |it: ListingItemView|
        if keep_listing_item(it) {
            Some(listing_entry(it, data, v))
        } else {
            None
        };
    let out = listing_entries(items, data, v);
    assert(out.contains(out[j]));
    items.lemma_filter_map_contains(f, out[j]);
    let t = choose|t: ListingItemView| #[trigger] items.contains(t) && f(t) == Some(out[j]);
    let i = choose|i: int| 0 <= i < items.len() && items[i] == t;
    assert(keep_listing_item(items[i]));
    assert(listing_entries(items, data, v)[j] == listing_entry(items[i], data, v));
}

/// The title detail assembled from a fetched detail page: the caller selects
/// title, cover attributes, author, artist, description, genre texts and the
/// hook excerpt, and the deployment's hooks classify the result.
pub struct DetailDoc {
    pub title: String,
    pub cover_src: String,
    pub cover_data_src: String,
    pub author: String,
    pub artist: String,
    pub description: String,
    pub genres: Vec<String>,
    pub excerpt: DocExcerpt,
}

/// Assembles the full catalog entry of one title from its fetched detail
/// page: plain fields are carried over, the cover follows the
/// image-URL-resolution rule, the URL is the title's own page, and status,
/// reading direction and rating come from the deployment's hooks applied to
/// the document excerpt and the genre list.
pub fn get_manga_details<H: SiteHooks>(
    manga_id: &str,
    data: &MadaraSiteData,
    doc: &DetailDoc,
    hooks: &H,
) -> (m: Manga)
    ensures
        m.id@ == manga_id@,
        m.title@ == doc.title@,
        m.cover@ == image_url_of(doc.cover_data_src@, doc.cover_src@),
        m.author@ == doc.author@,
        m.artist@ == doc.artist@,
        m.description@ == doc.description@,
        m.url@ == source_url(*data, manga_id@),
        m.categories.deep_view() == doc.genres.deep_view(),
        m.status == hooks.status_spec(doc.excerpt.status_text@, doc.excerpt.adult_text@),
        m.viewer == hooks.viewer_spec(
            doc.excerpt.status_text@,
            doc.excerpt.adult_text@,
            doc.genres.deep_view(),
        ),
        m.nsfw == hooks.nsfw_spec(
            doc.excerpt.status_text@,
            doc.excerpt.adult_text@,
            doc.genres.deep_view(),
        ),
{
    let url = crate::query::get_source_url(data, manga_id);
    let categories = doc.genres.clone();
    proof {
        assert(categories.deep_view() =~= doc.genres.deep_view());
    }
    let status = hooks.status(&doc.excerpt);
    let viewer = hooks.viewer(&doc.excerpt, &doc.genres);
    let nsfw = hooks.nsfw(&doc.excerpt, &doc.genres);
    Manga {
        id: String::from_str(manga_id),
        title: doc.title.clone(),
        cover: get_image_url(&doc.cover_data_src, &doc.cover_src),
        author: doc.author.clone(),
        artist: doc.artist.clone(),
        description: doc.description.clone(),
        url,
        categories,
        status,
        nsfw,
        viewer,
    }
}

} // verus!
