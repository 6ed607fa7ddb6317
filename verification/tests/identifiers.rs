use madara::{extract_catalog_id, extract_chapter_id};

#[test]
fn catalog_id_strips_base_path_and_slashes() {
    let id = extract_catalog_id("https://example.com/manga/some-title/", "https://example.com", "manga");
    assert_eq!(id, "some-title");
}

#[test]
fn catalog_id_extraction_is_idempotent() {
    let once = extract_catalog_id("https://example.com/manga/some-title/", "https://example.com", "manga");
    let twice = extract_catalog_id(&once, "https://example.com", "manga");
    assert_eq!(once, twice);
}

#[test]
fn catalog_id_handles_absolute_href_without_trailing_slash() {
    let id = extract_catalog_id("https://site.org/manga/one-piece", "https://site.org", "manga");
    assert_eq!(id, "one-piece");
}

#[test]
fn catalog_id_of_empty_href_is_empty() {
    let id = extract_catalog_id("", "https://example.com", "manga");
    assert_eq!(id, "");
}

#[test]
fn chapter_id_keeps_inner_slashes() {
    let id = extract_chapter_id(
        "https://example.com/manga/some-title/chapter-3/",
        "https://example.com",
        "manga",
    );
    assert_eq!(id, "some-title/chapter-3/");
}

#[test]
fn chapter_id_strips_prefixes_only_with_their_slash() {
    let id = extract_chapter_id(
        "https://example.com/manga/volume-1/chapter-2/",
        "https://example.com",
        "manga",
    );
    assert_eq!(id, "volume-1/chapter-2/");
}
