use madara::{
    get_chapter_list_request, get_filtered_url, get_manga_list, get_manga_listing,
    get_series_page, get_source_url, BrowseRequest, ChapterListRequest, Filter, MadaraSiteData,
};

fn site() -> MadaraSiteData {
    MadaraSiteData { base_url: String::from("https://site.com"), ..Default::default() }
}

fn ajax_body(key: &str, page: i32) -> String {
    format!(
        "action=madara_load_more&page={}&template=madara-core%2Fcontent%2Fcontent-archive&vars%5Bpaged%5D=1&vars%5Borderby%5D=meta_value_num&vars%5Btemplate%5D=archive&vars%5Bsidebar%5D=full&vars%5Bpost_type%5D=wp-manga&vars%5Bpost_status%5D=publish&vars%5Bmeta_key%5D={}&vars%5Border%5D=desc&vars%5Bmeta_query%5D%5Brelation%5D=OR&vars%5Bmanga_archives_item_layout%5D=big_thumbnail",
        page - 1,
        key
    )
}

#[test]
fn default_profile_values() {
    let d = MadaraSiteData::default();
    assert_eq!(d.base_url, "");
    assert_eq!(d.lang, "en");
    assert_eq!(d.source_path, "manga");
    assert_eq!(d.search_path, "page");
    assert_eq!(d.search_cookies, "wpmanga-adault=1");
    assert_eq!(d.search_selector, "div.c-tabs-item__content");
    assert_eq!(d.image_selector, "div.page-break > img");
    assert_eq!(d.genre_selector, "div.genres-content > a");
    assert_eq!(d.popular, "Popular");
    assert_eq!(d.trending, "Trending");
    assert!(!d.alt_ajax);
}

#[test]
fn title_filter_builds_a_search_url() {
    let data = site();
    let filters = vec![Filter::Title(String::from("One Piece"))];
    let (url, did_search) = get_filtered_url(&filters, 1, &data);
    assert!(did_search);
    assert_eq!(url, "https://site.com/page/1/?s=one%20piece&post_type=wp-manga");
}

#[test]
fn no_title_filter_keeps_the_base_url() {
    let data = site();
    let filters = vec![Filter::Other];
    let (url, did_search) = get_filtered_url(&filters, 1, &data);
    assert!(!did_search);
    assert_eq!(url, "https://site.com");
}

#[test]
fn search_terms_are_lowercased_and_percent_encoded() {
    let data = site();
    let filters = vec![Filter::Title(String::from("Café 5!"))];
    let (url, _) = get_filtered_url(&filters, 2, &data);
    // 'é' is two UTF-8 bytes, each escaped; only ASCII letters and digits
    // pass through.
    assert_eq!(url, "https://site.com/page/2/?s=caf%c3%a9%205%21&post_type=wp-manga");
}

#[test]
fn several_title_filters_concatenate_in_order() {
    let data = site();
    let filters = vec![
        Filter::Title(String::from("ab")),
        Filter::Other,
        Filter::Title(String::from("CD")),
    ];
    let (url, did_search) = get_filtered_url(&filters, 1, &data);
    assert!(did_search);
    assert_eq!(url, "https://site.com/page/1/?s=abcd&post_type=wp-manga");
}

#[test]
fn browse_dispatches_between_search_and_listing() {
    let data = site();
    let search = get_manga_list(&vec![Filter::Title(String::from("x"))], 1, &data);
    match search {
        BrowseRequest::Search { url, cookies } => {
            assert_eq!(url, "https://site.com/page/1/?s=x&post_type=wp-manga");
            assert_eq!(cookies, "wpmanga-adault=1");
        },
        BrowseRequest::Listing { .. } => panic!("expected a search request"),
    }
    let listing = get_manga_list(&Vec::new(), 1, &site());
    match listing {
        BrowseRequest::Listing { url, body } => {
            assert_eq!(url, "https://site.com/wp-admin/admin-ajax.php");
            assert_eq!(body, ajax_body("_latest_update", 1));
        },
        BrowseRequest::Search { .. } => panic!("expected a listing request"),
    }
}

#[test]
fn listing_page_numbers_are_translated_to_zero_indexed() {
    let data = site();
    let (_, body) = get_series_page(&data, "_latest_update", 3);
    assert!(body.contains("&page=2&"));
    assert_eq!(body, ajax_body("_latest_update", 3));
}

#[test]
fn zero_indexed_caller_page_renders_a_negative_form_field() {
    let data = site();
    let (_, body) = get_series_page(&data, "_latest_update", 0);
    assert!(body.contains("&page=-1&"));
    assert_eq!(body, ajax_body("_latest_update", 0));
}

#[test]
fn popular_listing_selects_all_time_views() {
    let data = site();
    let (url, body) = get_manga_listing(&data, "Popular", 1);
    assert_eq!(url, "https://site.com/wp-admin/admin-ajax.php");
    assert_eq!(body, ajax_body("_wp_manga_views", 1));
}

#[test]
fn trending_listing_selects_weekly_views() {
    let data = site();
    let (_, body) = get_manga_listing(&data, "Trending", 1);
    assert_eq!(body, ajax_body("_wp_manga_week_views_value", 1));
}

#[test]
fn other_listing_names_fall_back_to_latest_update() {
    let data = site();
    let (_, body) = get_manga_listing(&data, "New", 1);
    assert_eq!(body, ajax_body("_latest_update", 1));
    let (_, localized) = get_manga_listing(&data, "popular", 1);
    // Listing names match the localized strings exactly.
    assert_eq!(localized, ajax_body("_latest_update", 1));
}

#[test]
fn chapter_list_request_posts_to_the_shared_endpoint() {
    let data = site();
    match get_chapter_list_request(&data, "alpha", "1234") {
        ChapterListRequest::Post { url, body } => {
            assert_eq!(url, "https://site.com/wp-admin/admin-ajax.php");
            assert_eq!(body, "action=manga_get_chapters&manga=1234");
        },
        ChapterListRequest::Get { .. } => panic!("expected the shared-endpoint POST"),
    }
}

#[test]
fn alt_ajax_gets_the_chapter_list_from_the_title_path() {
    let mut data = site();
    data.alt_ajax = true;
    match get_chapter_list_request(&data, "alpha", "1234") {
        ChapterListRequest::Get { url } => {
            assert_eq!(url, "https://site.com/manga/alpha/ajax/chapters");
        },
        ChapterListRequest::Post { .. } => panic!("expected the title-path GET"),
    }
}

#[test]
fn source_url_joins_base_path_and_id() {
    let data = site();
    assert_eq!(get_source_url(&data, "alpha"), "https://site.com/manga/alpha");
}
