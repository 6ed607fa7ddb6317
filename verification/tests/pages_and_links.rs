use madara::{
    get_chapter_list, get_page_list, handle_url, ChapterRow, MadaraSiteData, PageItem,
};

fn site() -> MadaraSiteData {
    MadaraSiteData { base_url: String::from("https://site.com"), ..Default::default() }
}

#[test]
fn page_indices_follow_document_order() {
    let items = vec![
        PageItem { src: String::from("a.jpg"), data_src: String::new() },
        PageItem { src: String::from("b.jpg"), data_src: String::from("z-lazy.jpg") },
        PageItem { src: String::from("c.jpg"), data_src: String::new() },
    ];
    let pages = get_page_list(&items);
    assert_eq!(pages.len(), 3);
    for (i, page) in pages.iter().enumerate() {
        assert_eq!(page.index, i);
    }
    // The out-of-order lazy-load value changes the URL, never the order.
    assert_eq!(pages[0].url, "a.jpg");
    assert_eq!(pages[1].url, "z-lazy.jpg");
    assert_eq!(pages[2].url, "c.jpg");
}

#[test]
fn empty_chapter_page_has_no_pages() {
    assert_eq!(get_page_list(&Vec::new()).len(), 0);
}

#[test]
fn deep_link_extracts_the_fifth_segment() {
    let id = handle_url("https://host/manga/some-title/volume-1/chapter-2/");
    assert_eq!(id, "some-title");
}

#[test]
fn short_urls_yield_an_empty_identifier() {
    assert_eq!(handle_url("https://host/manga"), "");
    assert_eq!(handle_url(""), "");
}

#[test]
fn five_segments_are_just_enough() {
    assert_eq!(handle_url("https://host/manga/some-title"), "some-title");
}

fn row(href: &str, text: &str, date: &str) -> ChapterRow {
    ChapterRow {
        href: String::from(href),
        link_text: String::from(text),
        date_text: String::from(date),
    }
}

#[test]
fn chapter_rows_become_entries() {
    let data = site();
    let rows = vec![row(
        "https://site.com/manga/alpha/chapter-5/",
        "Chapter 5 - The Start",
        "Jan 5, 2024",
    )];
    let chapters = get_chapter_list(&data, &rows, 42);
    assert_eq!(chapters.len(), 1);
    let c = &chapters[0];
    assert_eq!(c.id, "alpha/chapter-5/");
    assert_eq!(c.title, "The Start");
    assert_eq!(c.chapter_tenths, 50);
    assert_eq!(c.volume_tenths, None);
    assert_eq!(c.date_updated, 1704412800);
    assert_eq!(c.url, "https://site.com/manga/alpha/chapter-5/");
    assert_eq!(c.lang, "en");
}

#[test]
fn link_text_without_hyphen_gives_an_empty_title() {
    let data = site();
    let rows = vec![row("https://site.com/manga/alpha/chapter-6/", "Chapter 6", "bad date")];
    let chapters = get_chapter_list(&data, &rows, 42);
    assert_eq!(chapters[0].title, "");
    // The unparseable date resolves to the supplied moment.
    assert_eq!(chapters[0].date_updated, 42);
}

#[test]
fn source_order_is_kept_newest_first() {
    // The engine hands rows through in source order, which is typically
    // newest first; a caller wanting chronological ascending order must
    // reverse explicitly.
    let data = site();
    let rows = vec![
        row("https://site.com/manga/alpha/chapter-2/", "Chapter 2 - Later", "Jan 6, 2024"),
        row("https://site.com/manga/alpha/chapter-1/", "Chapter 1 - Early", "Jan 5, 2024"),
    ];
    let chapters = get_chapter_list(&data, &rows, 42);
    assert_eq!(chapters[0].chapter_tenths, 20);
    assert_eq!(chapters[1].chapter_tenths, 10);
    let chronological: Vec<_> = chapters.iter().rev().map(|c| c.chapter_tenths).collect();
    assert_eq!(chronological, vec![10, 20]);
}
