use bytes::Bytes;
use mediaschema::cue::{SubtitleCue, SubtitleCueError};
use mediaschema::localized::LocalizedText;
use mediaschema::primitives::Uuid7;
use mediaschema::time::{TimeRange, Timebase};

fn span() -> TimeRange {
    TimeRange::new(1000, 2000, Timebase::default())
}

#[test]
fn try_new_happy_path_text() {
    let subtitle_track_id = Uuid7::new();
    let c = SubtitleCue::try_new_text(Uuid7::new(), subtitle_track_id, 0, span(), LocalizedText::from_src("Hello"))
        .expect("valid text cue must construct");
    assert_eq!(c.subtitle_track_id_ref(), &subtitle_track_id);
    assert_eq!(c.index(), 0);
    assert_eq!(c.span_ref(), &span());
    assert_eq!(c.text_ref().src(), "Hello");
    assert!(c.styled_text().is_empty());
    assert!(c.image().is_empty());
    assert!(c.ocr_text_ref().is_empty());
    assert!(!c.is_blank());
}

#[test]
fn cue_try_new_rejects_nil_id() {
    let r = SubtitleCue::try_new_text(Uuid7::nil(), Uuid7::new(), 0, span(), LocalizedText::from_src("x"));
    assert_eq!(r.err(), Some(SubtitleCueError::NilId));
    assert!(SubtitleCueError::NilId.is_nil_id());
}

#[test]
fn try_new_rejects_nil_subtitle_track_id() {
    let r = SubtitleCue::try_new_text(Uuid7::new(), Uuid7::nil(), 0, span(), LocalizedText::from_src("x"));
    assert_eq!(r.err(), Some(SubtitleCueError::NilSubtitleTrackId));
    assert!(SubtitleCueError::NilSubtitleTrackId.is_nil_subtitle_track_id());
}

#[test]
fn try_new_rejects_fully_blank_cue() {
    let r = SubtitleCue::try_new(
        Uuid7::new(),
        Uuid7::new(),
        0,
        span(),
        LocalizedText::new(),
        "",
        Bytes::new(),
        LocalizedText::new(),
    );
    assert_eq!(r.err(), Some(SubtitleCueError::BlankCue));
    assert!(SubtitleCueError::BlankCue.is_blank_cue());
}

#[test]
fn try_new_rejects_ocr_text_without_image() {
    let r = SubtitleCue::try_new(
        Uuid7::new(),
        Uuid7::new(),
        0,
        span(),
        LocalizedText::new(),
        "",
        Bytes::new(),
        LocalizedText::from_src("Hello (OCR)"),
    );
    assert_eq!(r.err(), Some(SubtitleCueError::OcrTextWithoutImage));
    assert!(SubtitleCueError::OcrTextWithoutImage.is_ocr_text_without_image());
}

#[test]
fn try_new_bitmap_cue_with_image_and_ocr() {
    let bitmap = vec![0u8, 1, 2, 3];
    let c = SubtitleCue::try_new(
        Uuid7::new(),
        Uuid7::new(),
        5,
        span(),
        LocalizedText::new(),
        "",
        Bytes::from(bitmap.clone()),
        LocalizedText::from_src("Hello (OCR)"),
    )
    .expect("bitmap cue with image + ocr_text must construct");
    assert_eq!(c.index(), 5);
    assert_eq!(c.image(), bitmap.as_slice());
    assert_eq!(c.ocr_text_ref().src(), "Hello (OCR)");
    assert!(!c.is_blank());
}

#[test]
fn try_new_image_only_cue_is_valid() {
    let c = SubtitleCue::try_new(
        Uuid7::new(),
        Uuid7::new(),
        0,
        span(),
        LocalizedText::new(),
        "",
        Bytes::from(vec![9u8]),
        LocalizedText::new(),
    )
    .expect("image-only cue is non-blank and ocr_text is absent");
    assert_eq!(c.image(), &[9u8]);
    assert!(!c.is_blank());
}

#[test]
fn invariant_free_builders_chain() {
    let c = SubtitleCue::try_new_text(Uuid7::new(), Uuid7::new(), 0, span(), LocalizedText::from_src("hi"))
        .unwrap()
        .with_index(5)
        .with_styled_text("{\\b1}hi{\\b0}");
    assert_eq!(c.index(), 5);
    assert_eq!(c.styled_text(), "{\\b1}hi{\\b0}");
}

#[test]
fn try_with_text_rejects_blanking() {
    let c = SubtitleCue::try_new_text(Uuid7::new(), Uuid7::new(), 0, span(), LocalizedText::from_src("hi")).unwrap();
    let r = c.try_with_text(LocalizedText::new());
    assert_eq!(r.err(), Some(SubtitleCueError::BlankCue));
}

#[test]
fn try_with_ocr_text_rejects_without_image() {
    let c = SubtitleCue::try_new_text(Uuid7::new(), Uuid7::new(), 0, span(), LocalizedText::from_src("hi")).unwrap();
    let r = c.try_with_ocr_text(LocalizedText::from_src("Hello (OCR)"));
    assert_eq!(r.err(), Some(SubtitleCueError::OcrTextWithoutImage));
}

#[test]
fn try_with_image_rejects_orphaning_ocr_text() {
    let c = SubtitleCue::try_new(
        Uuid7::new(),
        Uuid7::new(),
        0,
        span(),
        LocalizedText::new(),
        "",
        Bytes::from(vec![1u8]),
        LocalizedText::from_src("Hello (OCR)"),
    )
    .unwrap();
    let r = c.try_with_image(Bytes::new());
    assert_eq!(r.err(), Some(SubtitleCueError::OcrTextWithoutImage));
}

#[test]
fn try_with_image_then_ocr_text_builds_valid_bitmap_cue() {
    let c = SubtitleCue::try_new(
        Uuid7::new(),
        Uuid7::new(),
        0,
        span(),
        LocalizedText::new(),
        "",
        Bytes::from(vec![7u8]),
        LocalizedText::new(),
    )
    .unwrap()
    .try_with_ocr_text(LocalizedText::from_src("OCR"))
    .expect("ocr_text with an image present is valid");
    assert_eq!(c.image(), &[7u8]);
    assert_eq!(c.ocr_text_ref().src(), "OCR");
}

#[test]
fn try_set_ocr_text_rejects_without_image_and_leaves_self_unchanged() {
    let mut c = SubtitleCue::try_new_text(Uuid7::new(), Uuid7::new(), 0, span(), LocalizedText::from_src("hi")).unwrap();
    let r = c.try_set_ocr_text(LocalizedText::from_src("OCR"));
    assert_eq!(r.err(), Some(SubtitleCueError::OcrTextWithoutImage));
    assert!(c.ocr_text_ref().is_empty(), "rejected setter must not mutate");
    assert_eq!(c.text_ref().src(), "hi");
}

#[test]
fn try_set_text_rejects_blanking_and_leaves_self_unchanged() {
    let mut c = SubtitleCue::try_new_text(Uuid7::new(), Uuid7::new(), 0, span(), LocalizedText::from_src("hi")).unwrap();
    let r = c.try_set_text(LocalizedText::new());
    assert_eq!(r.err(), Some(SubtitleCueError::BlankCue));
    assert_eq!(c.text_ref().src(), "hi", "rejected setter must not mutate");
}

#[test]
fn try_set_image_then_ocr_text_succeeds() {
    let mut c = SubtitleCue::try_new_text(Uuid7::new(), Uuid7::new(), 0, span(), LocalizedText::from_src("hi")).unwrap();
    c.try_set_image(Bytes::from(vec![3u8])).expect("setting an image is always valid");
    c.try_set_ocr_text(LocalizedText::from_src("OCR")).expect("ocr_text with image present is valid");
    assert_eq!(c.image(), &[3u8]);
    assert_eq!(c.ocr_text_ref().src(), "OCR");
}

#[test]
fn try_set_image_can_clear_when_text_present() {
    let mut c = SubtitleCue::try_new(
        Uuid7::new(),
        Uuid7::new(),
        0,
        span(),
        LocalizedText::from_src("hi"),
        "",
        Bytes::from(vec![1u8]),
        LocalizedText::new(),
    )
    .unwrap();
    c.try_set_image(Bytes::new()).expect("clearing image is valid while text keeps the cue non-blank");
    assert!(c.image().is_empty());
}

#[test]
fn invariant_free_setters_mutate_in_place_and_chain() {
    let mut c = SubtitleCue::try_new_text(Uuid7::new(), Uuid7::new(), 0, span(), LocalizedText::from_src("hi")).unwrap();
    c.set_index(7).set_styled_text("Bonjour");
    assert_eq!(c.index(), 7);
    assert_eq!(c.styled_text(), "Bonjour");
}

#[test]
fn translated_only_text_is_content() {
    let c = SubtitleCue::try_new_text(
        Uuid7::new(),
        Uuid7::new(),
        0,
        span(),
        LocalizedText::from_src_translated("", "hello"),
    )
    .expect("a translation alone is content");
    assert_eq!(c.text_ref().translated(), "hello");
    let copy = c.clone();
    assert_eq!(copy, c);
    assert_eq!(
        SubtitleCueError::OcrTextWithoutImage.message(),
        "SubtitleCue ocr_text is set but image is empty (OCR text requires a bitmap)"
    );
}

#[test]
fn text_cue_is_built_on_valid_input() {
    let c = SubtitleCue::try_new_text(Uuid7::new(), Uuid7::new(), 0, TimeRange::new(1000, 2000, Timebase::default()), LocalizedText::from_src("hi"));
    assert!(c.is_ok());
    assert_eq!(c.unwrap().text_ref().src(), "hi");
}
