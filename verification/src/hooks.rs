//! Classification values and the per-site override hooks.
//!
//! Reading direction, publication status and content rating are the engine's
//! only site-specific override surface beyond selectors.  A deployment
//! supplies one [`SiteHooks`] implementation; [`DefaultHooks`] is the
//! template's stock behavior.  Hooks read a fixed excerpt of the fetched
//! document — the texts the stock classifiers look at — together with the
//! genre list, which is empty when genres are not yet known (listing pages do
//! not expose genre metadata).

use vstd::prelude::*;
use crate::text::{lower_seq, lower_chars, chars_eq_str, str_to_chars};

verus! {

/// Reading direction of a title.
#[derive(Clone, Copy, Debug, PartialEq, Eq, Structural)]
pub enum MangaViewer {
    Rtl,
    Ltr,
    Vertical,
    Scroll,
}

/// Publication status of a title.
#[derive(Clone, Copy, Debug, PartialEq, Eq, Structural)]
pub enum MangaStatus {
    Unknown,
    Ongoing,
    Completed,
    Cancelled,
    Hiatus,
}

/// Content rating of a title.
#[derive(Clone, Copy, Debug, PartialEq, Eq, Structural)]
pub enum MangaContentRating {
    Safe,
    Suggestive,
    Nsfw,
}

/// The excerpt of a fetched document that classification hooks read: the text
/// under the "Status" content block and the text of the adult badge.  An
/// empty excerpt stands for the placeholder document used at listing time.
pub struct DocExcerpt {
    pub status_text: String,
    pub adult_text: String,
}

impl DocExcerpt {
    /// The placeholder document handed to hooks before a detail fetch.
    pub fn empty() -> (r: DocExcerpt)
        ensures
            r.status_text@ == Seq::<char>::empty(),
            r.adult_text@ == Seq::<char>::empty(),
    {
        DocExcerpt { status_text: String::new(), adult_text: String::new() }
    }
}

/// The three per-site classification hooks.  Each executable hook must return
/// exactly what its specification function names, so engine contracts can
/// speak of hook results.
pub trait SiteHooks {
    /// The reading direction this implementation assigns.
    spec fn viewer_spec(
        &self,
        status_text: Seq<char>,
        adult_text: Seq<char>,
        genres: Seq<Seq<char>>,
    ) -> MangaViewer;

    /// The publication status this implementation assigns.
    spec fn status_spec(&self, status_text: Seq<char>, adult_text: Seq<char>) -> MangaStatus;

    /// The content rating this implementation assigns.
    spec fn nsfw_spec(
        &self,
        status_text: Seq<char>,
        adult_text: Seq<char>,
        genres: Seq<Seq<char>>,
    ) -> MangaContentRating;

    /// Reading direction of the title shown by `doc` with genre list `genres`.
    fn viewer(&self, doc: &DocExcerpt, genres: &Vec<String>) -> (r: MangaViewer)
        ensures
            r == self.viewer_spec(doc.status_text@, doc.adult_text@, genres.deep_view()),
    ;

    /// Publication status of the title shown by `doc`.
    fn status(&self, doc: &DocExcerpt) -> (r: MangaStatus)
        ensures
            r == self.status_spec(doc.status_text@, doc.adult_text@),
    ;

    /// Content rating of the title shown by `doc` with genre list `genres`.
    fn nsfw(&self, doc: &DocExcerpt, genres: &Vec<String>) -> (r: MangaContentRating)
        ensures
            r == self.nsfw_spec(doc.status_text@, doc.adult_text@, genres.deep_view()),
    ;
}

/// The status the stock hook reads from a status label: the label is
/// lower-cased and matched whole against the four known values.
pub open spec fn default_status_of(status_text: Seq<char>) -> MangaStatus {
    let t = lower_seq(status_text);
    if t == "ongoing"@ {
        MangaStatus::Ongoing
    } else if t == "completed"@ {
        MangaStatus::Completed
    } else if t == "canceled"@ {
        MangaStatus::Cancelled
    } else if t == "hiatus"@ {
        MangaStatus::Hiatus
    } else {
        MangaStatus::Unknown
    }
}

/// The rating the stock hook assigns: NSFW exactly when the adult badge
/// carries text.
pub open spec fn default_nsfw_of(adult_text: Seq<char>) -> MangaContentRating {
    if adult_text.len() > 0 {
        MangaContentRating::Nsfw
    } else {
        MangaContentRating::Safe
    }
}

/// The template's stock classification behavior: vertical-scroll reading,
/// status from the localized status label, NSFW when an adult badge is
/// present.
pub struct DefaultHooks {
}

impl SiteHooks for DefaultHooks {
    open spec fn viewer_spec(
        &self,
        status_text: Seq<char>,
        adult_text: Seq<char>,
        genres: Seq<Seq<char>>,
    ) -> MangaViewer {
        MangaViewer::Scroll
    }

    open spec fn status_spec(&self, status_text: Seq<char>, adult_text: Seq<char>) -> MangaStatus {
        default_status_of(status_text)
    }

    open spec fn nsfw_spec(
        &self,
        status_text: Seq<char>,
        adult_text: Seq<char>,
        genres: Seq<Seq<char>>,
    ) -> MangaContentRating {
        default_nsfw_of(adult_text)
    }

    fn viewer(&self, doc: &DocExcerpt, genres: &Vec<String>) -> (r: MangaViewer) {
        MangaViewer::Scroll
    }

    fn status(&self, doc: &DocExcerpt) -> (r: MangaStatus) {
        let chars = str_to_chars(doc.status_text.as_str());
        let t = lower_chars(&chars);
        if chars_eq_str(&t, "ongoing") {
            MangaStatus::Ongoing
        } else if chars_eq_str(&t, "completed") {
            MangaStatus::Completed
        } else if chars_eq_str(&t, "canceled") {
            MangaStatus::Cancelled
        } else if chars_eq_str(&t, "hiatus") {
            MangaStatus::Hiatus
        } else {
            MangaStatus::Unknown
        }
    }

    fn nsfw(&self, doc: &DocExcerpt, genres: &Vec<String>) -> (r: MangaContentRating) {
        if doc.adult_text.as_str().unicode_len() > 0 {
            MangaContentRating::Nsfw
        } else {
            MangaContentRating::Safe
        }
    }
}

} // verus!
