//! Page lists: the ordered image URLs of one chapter.

use vstd::prelude::*;
use crate::catalog::image_url_of;
use crate::catalog::get_image_url;

verus! {

/// One selected image element of a chapter page.
pub struct PageItem {
    /// `src` of the image.
    pub src: String,
    /// Lazy-load `data-src` of the image, empty when absent.
    pub data_src: String,
}

/// One page of a chapter: a zero-based index and the image URL.
pub struct Page {
    /// Position in the chapter, equal to the image's position in the
    /// document.
    pub index: usize,
    /// Image URL, resolved by the image-URL-resolution rule.
    pub url: String,
}

/// Extracts the ordered page list from the selected image elements of a
/// chapter page: one entry per element, in document order, indices exactly
/// `0, 1, 2, ...` — no reordering and no deduplication, whatever the
/// attribute values hold.
pub fn get_page_list(items: &Vec<PageItem>) -> (r: Vec<Page>)
    ensures
        r@.len() == items@.len(),
        forall|i: int|
            0 <= i < r@.len() ==> (#[trigger] r@[i]).index == i && r@[i].url@ == image_url_of(
                items@[i].data_src@,
                items@[i].src@,
            ),
{
    let n = items.len();
    let mut r: Vec<Page> = Vec::new();
    let mut i: usize = 0;
    while i < n
        invariant
            n == items@.len(),
            i <= n,
            r@.len() == i,
            forall|k: int|
                0 <= k < i ==> (#[trigger] r@[k]).index == k && r@[k].url@ == image_url_of(
                    items@[k].data_src@,
                    items@[k].src@,
                ),
        decreases n - i,
    {
        let item = &items[i];
        r.push(Page { index: i, url: get_image_url(&item.data_src, &item.src) });
        i = i + 1;
    }
    r
}

} // verus!
