//! Per-deployment configuration.
//!
//! One `MadaraSiteData` value describes one installation of the shared site
//! template: its base URL, path segments, CSS selectors, localized label
//! strings and transport variant.  It is built once, read-only thereafter,
//! and shared by every operation against that deployment; the classification
//! hooks that complete a deployment travel separately as a
//! [`crate::hooks::SiteHooks`] implementation.

use vstd::prelude::*;

verus! {

/// Configuration of one deployment of the site template.
pub struct MadaraSiteData {
    /// Scheme and host, with no trailing slash.
    pub base_url: String,
    /// Language tag stamped on every chapter entry.
    pub lang: String,
    /// Path segment under which titles live: `{base_url}/{source_path}/{id}`.
    pub source_path: String,
    /// Path segment used by paginated search: `{base_url}/{search_path}/{page}/?s=...`.
    pub search_path: String,
    /// Cookies attached to search requests (site gating).
    pub search_cookies: String,
    /// CSS selector for one search-result item.
    pub search_selector: String,
    /// CSS selector for the images of a chapter page.
    pub image_selector: String,
    /// CSS selector for the genre links of a detail page.
    pub genre_selector: String,
    /// Localized label for the ongoing status.
    pub status_filter_ongoing: String,
    /// Localized label for the completed status.
    pub status_filter_completed: String,
    /// Localized label for the cancelled status.
    pub status_filter_cancelled: String,
    /// Localized label for the on-hold status.
    pub status_filter_on_hold: String,
    /// Localized label of the adult-content filter.
    pub adult_string: String,
    /// Localized label of the genre-condition filter.
    pub genre_condition: String,
    /// Localized name of the "popular" listing.
    pub popular: String,
    /// Localized name of the "trending" listing.
    pub trending: String,
    /// Selects the alternative chapter-list transport: a GET of
    /// `{base_url}/{source_path}/{id}/ajax/chapters` instead of the shared
    /// `admin-ajax.php` POST.
    pub alt_ajax: bool,
}

impl Default for MadaraSiteData {
    /// The template's stock configuration; deployments override single
    /// fields.
    fn default() -> (d: MadaraSiteData)
        ensures
            d.base_url@ == Seq::<char>::empty(),
            d.lang@ == "en"@,
            d.source_path@ == "manga"@,
            d.search_path@ == "page"@,
            d.search_cookies@ == "wpmanga-adault=1"@,
            d.search_selector@ == "div.c-tabs-item__content"@,
            d.image_selector@ == "div.page-break > img"@,
            d.genre_selector@ == "div.genres-content > a"@,
            d.status_filter_ongoing@ == "Ongoing"@,
            d.status_filter_completed@ == "Completed"@,
            d.status_filter_cancelled@ == "Cancelled"@,
            d.status_filter_on_hold@ == "On Hold"@,
            d.adult_string@ == "Adult Content"@,
            d.genre_condition@ == "Genre Condition"@,
            d.popular@ == "Popular"@,
            d.trending@ == "Trending"@,
            d.alt_ajax == false,
    {
        MadaraSiteData {
            base_url: String::new(),
            lang: String::from_str("en"),
            source_path: String::from_str("manga"),
            search_path: String::from_str("page"),
            search_cookies: String::from_str("wpmanga-adault=1"),
            search_selector: String::from_str("div.c-tabs-item__content"),
            image_selector: String::from_str("div.page-break > img"),
            genre_selector: String::from_str("div.genres-content > a"),
            status_filter_ongoing: String::from_str("Ongoing"),
            status_filter_completed: String::from_str("Completed"),
            status_filter_cancelled: String::from_str("Cancelled"),
            status_filter_on_hold: String::from_str("On Hold"),
            adult_string: String::from_str("Adult Content"),
            genre_condition: String::from_str("Genre Condition"),
            popular: String::from_str("Popular"),
            trending: String::from_str("Trending"),
            alt_ajax: false,
        }
    }
}

} // verus!
