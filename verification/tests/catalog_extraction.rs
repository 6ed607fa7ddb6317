use madara::{
    get_listing_result, get_manga_details, get_search_result, DefaultHooks, DetailDoc, DocExcerpt,
    ListingItem, MadaraSiteData, MangaContentRating, MangaStatus, MangaViewer, SearchItem,
};

fn site() -> MadaraSiteData {
    MadaraSiteData { base_url: String::from("https://site.com"), ..Default::default() }
}

fn search_item(href: &str, title: &str, genres: &str) -> SearchItem {
    SearchItem {
        href: String::from(href),
        title: String::from(title),
        cover_src: String::from("https://cdn.site.com/cover.jpg"),
        cover_data_src: String::new(),
        genres_text: String::from(genres),
    }
}

#[test]
fn search_items_become_entries() {
    let data = site();
    let items = vec![
        search_item("https://site.com/manga/alpha/", "Alpha", "Action, Comedy"),
        search_item("https://site.com/manga/beta/", "Beta", "Drama"),
    ];
    let r = get_search_result(&data, &DefaultHooks {}, &items);
    assert_eq!(r.manga.len(), 2);
    assert_eq!(r.manga[0].id, "alpha");
    assert_eq!(r.manga[0].title, "Alpha");
    assert_eq!(r.manga[1].id, "beta");
    assert!(r.has_more);
    assert_eq!(r.manga[0].status, MangaStatus::Unknown);
    assert_eq!(r.manga[0].nsfw, MangaContentRating::Safe);
    assert_eq!(r.manga[0].viewer, MangaViewer::Scroll);
}

#[test]
fn light_novel_genre_excludes_the_entry() {
    let data = site();
    let items = vec![
        search_item("https://site.com/manga/alpha/", "Alpha", "Action"),
        search_item("https://site.com/manga/a-novel/", "A Novel", "Light Novel"),
        search_item("https://site.com/manga/gamma/", "Gamma", "NOVEL"),
    ];
    let r = get_search_result(&data, &DefaultHooks {}, &items);
    assert_eq!(r.manga.len(), 1);
    assert_eq!(r.manga[0].id, "alpha");
    assert!(r.has_more);
}

#[test]
fn has_more_is_false_when_nothing_survives() {
    let data = site();
    let items = vec![search_item("https://site.com/manga/x/", "X", "Web Novel")];
    let r = get_search_result(&data, &DefaultHooks {}, &items);
    assert_eq!(r.manga.len(), 0);
    assert!(!r.has_more);
    let empty = get_search_result(&data, &DefaultHooks {}, &Vec::new());
    assert!(!empty.has_more);
}

#[test]
fn lazy_loaded_cover_wins_over_src() {
    let data = site();
    let mut item = search_item("https://site.com/manga/alpha/", "Alpha", "Action");
    item.cover_data_src = String::from("https://cdn.site.com/lazy.jpg");
    let r = get_search_result(&data, &DefaultHooks {}, &vec![item]);
    assert_eq!(r.manga[0].cover, "https://cdn.site.com/lazy.jpg");
}

#[test]
fn listing_web_novel_marker_excludes_the_entry() {
    let data = site();
    let items = vec![
        ListingItem {
            href: String::from("https://site.com/manga/kept/"),
            title: String::from("Kept"),
            cover_src: String::from("c.jpg"),
            cover_data_src: String::new(),
            web_novel_text: String::new(),
        },
        ListingItem {
            href: String::from("https://site.com/manga/skipped/"),
            title: String::from("Skipped"),
            cover_src: String::from("c.jpg"),
            cover_data_src: String::new(),
            web_novel_text: String::from("WEB NOVEL"),
        },
    ];
    let r = get_listing_result(&data, &DefaultHooks {}, &items);
    assert_eq!(r.manga.len(), 1);
    assert_eq!(r.manga[0].id, "kept");
    assert_eq!(r.manga[0].title, "Kept");
    assert!(r.has_more);
}

fn detail_doc(status: &str, adult: &str) -> DetailDoc {
    DetailDoc {
        title: String::from("Alpha"),
        cover_src: String::from("cover.jpg"),
        cover_data_src: String::new(),
        author: String::from("Author A"),
        artist: String::from("Artist B"),
        description: String::from("A story."),
        genres: vec![String::from("Action"), String::from("Comedy")],
        excerpt: DocExcerpt {
            status_text: String::from(status),
            adult_text: String::from(adult),
        },
    }
}

#[test]
fn details_carry_fields_and_classify() {
    let data = site();
    let doc = detail_doc("OnGoing", "");
    let m = get_manga_details("alpha", &data, &doc, &DefaultHooks {});
    assert_eq!(m.id, "alpha");
    assert_eq!(m.title, "Alpha");
    assert_eq!(m.author, "Author A");
    assert_eq!(m.artist, "Artist B");
    assert_eq!(m.description, "A story.");
    assert_eq!(m.url, "https://site.com/manga/alpha");
    assert_eq!(m.categories, vec!["Action", "Comedy"]);
    assert_eq!(m.status, MangaStatus::Ongoing);
    assert_eq!(m.viewer, MangaViewer::Scroll);
    assert_eq!(m.nsfw, MangaContentRating::Safe);
}

#[test]
fn status_labels_map_to_their_values() {
    let data = site();
    let hooks = DefaultHooks {};
    let cases = [
        ("Completed", MangaStatus::Completed),
        ("canceled", MangaStatus::Cancelled),
        ("Hiatus", MangaStatus::Hiatus),
        ("something else", MangaStatus::Unknown),
        ("", MangaStatus::Unknown),
    ];
    for (label, expected) in cases {
        let m = get_manga_details("alpha", &data, &detail_doc(label, ""), &hooks);
        assert_eq!(m.status, expected);
    }
}

#[test]
fn adult_badge_text_makes_nsfw() {
    let data = site();
    let m = get_manga_details("alpha", &data, &detail_doc("Ongoing", "18+"), &DefaultHooks {});
    assert_eq!(m.nsfw, MangaContentRating::Nsfw);
}
