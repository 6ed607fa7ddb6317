//! A verified core for template-driven manga catalog scraping.
//!
//! Many independently operated manga-hosting sites run the same "Madara"
//! WordPress template, so one parsing and request-building engine, driven by a
//! per-site configuration value, serves them all.  This crate is that engine:
//! URL and AJAX-request construction for search and listing browsing, catalog
//! and chapter-list extraction, the heuristic recovering a chapter number from
//! a path segment, the multi-format publication-date fallback chain, and the
//! per-site classification hooks.
//!
//! Transport (issuing HTTP requests) and document querying (CSS selection on
//! fetched markup) are the host's business: callers fetch pages, select the
//! configured elements, and hand the engine plain attribute and text values.
//! Everything the engine then does — every derivation, filter and format — is
//! specified and proved here.

pub mod catalog;
pub mod chapters;
pub mod dates;
pub mod deeplink;
pub mod hooks;
pub mod ident;
pub mod num;
pub mod pages;
pub mod profile;
pub mod query;
pub mod text;

pub use catalog::DetailDoc;
pub use catalog::ListingItem;
pub use catalog::Manga;
pub use catalog::MangaPageResult;
pub use catalog::SearchItem;
pub use catalog::get_listing_result;
pub use catalog::get_manga_details;
pub use catalog::get_search_result;
pub use chapters::Chapter;
pub use chapters::ChapterRow;
pub use chapters::chapter_number_tenths;
pub use chapters::get_chapter_list;
pub use dates::resolve_date;
pub use deeplink::handle_url;
pub use hooks::DefaultHooks;
pub use hooks::DocExcerpt;
pub use hooks::MangaContentRating;
pub use hooks::MangaStatus;
pub use hooks::MangaViewer;
pub use hooks::SiteHooks;
pub use ident::extract_catalog_id;
pub use ident::extract_chapter_id;
pub use pages::Page;
pub use pages::PageItem;
pub use pages::get_page_list;
pub use profile::MadaraSiteData;
pub use query::BrowseRequest;
pub use query::ChapterListRequest;
pub use query::Filter;
pub use query::get_chapter_list_request;
pub use query::get_filtered_url;
pub use query::get_manga_list;
pub use query::get_manga_listing;
pub use query::get_series_page;
pub use query::get_source_url;
