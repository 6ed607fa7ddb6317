use madara::chapter_number_tenths;

#[test]
fn number_from_segment_with_later_numbers() {
    let id = "one-piece-color-jk-english/volume-20-showdown-at-alubarna/chapter-177-30-million-vs-81-million/";
    assert_eq!(chapter_number_tenths(id), 1770);
}

#[test]
fn number_with_decimal_suffix() {
    let id = "parasite-chromatique-french/volume-10/chapitre-062-5/";
    assert_eq!(chapter_number_tenths(id), 625);
}

#[test]
fn no_numeric_token_yields_zero() {
    assert_eq!(chapter_number_tenths("some-title/extra-chapter/"), 0);
}

#[test]
fn plain_chapter_number() {
    assert_eq!(chapter_number_tenths("some-title/chapter-5/"), 50);
}

#[test]
fn leading_zeroes_are_read_as_the_number() {
    assert_eq!(chapter_number_tenths("t/chapter-007/"), 70);
}

#[test]
fn identifier_without_slash_uses_its_only_segment() {
    assert_eq!(chapter_number_tenths("chapter-7"), 70);
}

#[test]
fn leading_digit_fallback_on_mixed_token() {
    // "5b" is not all digits, so only its leading digit is read.
    assert_eq!(chapter_number_tenths("t/chapter-5b/"), 50);
}

#[test]
fn empty_identifier_yields_zero() {
    assert_eq!(chapter_number_tenths(""), 0);
}
