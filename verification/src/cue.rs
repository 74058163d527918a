//! `SubtitleCue` — one parsed cue of a `SubtitleTrack`, with the content
//! rule: a cue is never blank, and OCR text never exists without a bitmap.
use vstd::prelude::*;

use crate::localized::LocalizedText;
use crate::payload::{bytes_as_slice, bytes_contents, bytes_empty, bytes_is_empty};
use crate::primitives::{is_nil_bytes, Uuid7};
use crate::time::TimeRange;

verus! {

/// Error returned when [`SubtitleCue::try_new`] or a fallible content mutator
/// cannot uphold a cue invariant.
#[derive(Debug, Clone, Copy, PartialEq, Eq, Hash, Structural)]
#[non_exhaustive]
pub enum SubtitleCueError {
    /// `id` was the nil sentinel.
    NilId,
    /// `subtitle_track_id` was the nil sentinel (orphan cue).
    NilSubtitleTrackId,
    /// `text`, `ocr_text` and `image` were all empty.
    BlankCue,
    /// `ocr_text` was set while `image` was empty (OCR text is derived from
    /// a bitmap).
    OcrTextWithoutImage,
}

/// The message of each [`SubtitleCueError`].
pub open spec fn subtitle_cue_error_message(e: SubtitleCueError) -> Seq<char> {
    match e {
        SubtitleCueError::NilId => "SubtitleCue id must not be the nil UUID"@,
        SubtitleCueError::NilSubtitleTrackId => "SubtitleCue `subtitle_track_id` (FK → SubtitleTrack) must not be the nil UUID"@,
        SubtitleCueError::BlankCue => "SubtitleCue must be non-empty: text, ocr_text and image are all empty"@,
        SubtitleCueError::OcrTextWithoutImage => "SubtitleCue ocr_text is set but image is empty (OCR text requires a bitmap)"@,
    }
}

impl SubtitleCueError {
    /// True iff this is `SubtitleCueError::NilId`.
    pub fn is_nil_id(&self) -> (r: bool)
        ensures
            r == (*self is NilId),
    {
        match self {
            SubtitleCueError::NilId => true,
            #[allow(unreachable_patterns)]
            _ => false,
        }
    }

    /// True iff this is `SubtitleCueError::NilSubtitleTrackId`.
    pub fn is_nil_subtitle_track_id(&self) -> (r: bool)
        ensures
            r == (*self is NilSubtitleTrackId),
    {
        match self {
            SubtitleCueError::NilSubtitleTrackId => true,
            #[allow(unreachable_patterns)]
            _ => false,
        }
    }

    /// True iff this is `SubtitleCueError::BlankCue`.
    pub fn is_blank_cue(&self) -> (r: bool)
        ensures
            r == (*self is BlankCue),
    {
        match self {
            SubtitleCueError::BlankCue => true,
            #[allow(unreachable_patterns)]
            _ => false,
        }
    }

    /// True iff this is `SubtitleCueError::OcrTextWithoutImage`.
    pub fn is_ocr_text_without_image(&self) -> (r: bool)
        ensures
            r == (*self is OcrTextWithoutImage),
    {
        match self {
            SubtitleCueError::OcrTextWithoutImage => true,
            #[allow(unreachable_patterns)]
            _ => false,
        }
    }

    /// Human-readable description.
    pub fn message(&self) -> (r: String)
        ensures
            r@ == subtitle_cue_error_message(*self),
    {
        match self {
            SubtitleCueError::NilId => {
                proof {
                    reveal_strlit("SubtitleCue id must not be the nil UUID");
                }
                "SubtitleCue id must not be the nil UUID".to_owned()
            },
            SubtitleCueError::NilSubtitleTrackId => {
                proof {
                    reveal_strlit("SubtitleCue `subtitle_track_id` (FK → SubtitleTrack) must not be the nil UUID");
                }
                "SubtitleCue `subtitle_track_id` (FK → SubtitleTrack) must not be the nil UUID".to_owned()
            },
            SubtitleCueError::BlankCue => {
                proof {
                    reveal_strlit("SubtitleCue must be non-empty: text, ocr_text and image are all empty");
                }
                "SubtitleCue must be non-empty: text, ocr_text and image are all empty".to_owned()
            },
            SubtitleCueError::OcrTextWithoutImage => {
                proof {
                    reveal_strlit("SubtitleCue ocr_text is set but image is empty (OCR text requires a bitmap)");
                }
                "SubtitleCue ocr_text is set but image is empty (OCR text requires a bitmap)".to_owned()
            },
        }
    }
}

/// The content rule of a cue, checked in this order: OCR text needs a
/// bitmap, and a cue must carry some content. `None` when the
/// `(text, image, ocr_text)` triple is valid.
pub open spec fn cue_content_error(text: LocalizedText, image: Seq<u8>, ocr_text: LocalizedText) -> Option<
    SubtitleCueError,
> {
    if !ocr_text.spec_is_empty() && image.len() == 0 {
        Some(SubtitleCueError::OcrTextWithoutImage)
    } else if text.spec_is_empty() && ocr_text.spec_is_empty() && image.len() == 0 {
        Some(SubtitleCueError::BlankCue)
    } else {
        None
    }
}

/// What a content check answers for a triple.
pub open spec fn content_result(text: LocalizedText, image: Seq<u8>, ocr_text: LocalizedText) -> Result<
    (),
    SubtitleCueError,
> {
    match cue_content_error(text, image, ocr_text) {
        Some(e) => Err(e),
        None => Ok(()),
    }
}

/// Check the content rule of a prospective cue.
fn validate_content(text: &LocalizedText, image: &bytes::Bytes, ocr_text: &LocalizedText) -> (r: Result<
    (),
    SubtitleCueError,
>)
    ensures
        r == content_result(*text, bytes_contents(*image), *ocr_text),
{
    let image_empty = bytes_is_empty(image);
    if !ocr_text.is_empty() && image_empty {
        return Err(SubtitleCueError::OcrTextWithoutImage);
    }
    if text.is_empty() && ocr_text.is_empty() && image_empty {
        return Err(SubtitleCueError::BlankCue);
    }
    Ok(())
}

/// One parsed cue of a `SubtitleTrack`: its span, parsed text, render markup,
/// an inline bitmap and the OCR text read from it. Every cue carries content
/// (text, OCR text or bitmap), and OCR text never exists without a bitmap.
#[derive(Debug, PartialEq, Eq)]
pub struct SubtitleCue<Id = Uuid7> {
    id: Id,
    /// FK → `SubtitleTrack.id`.
    subtitle_track_id: Id,
    /// 0-based ordinal within the track.
    index: u32,
    /// On-screen interval.
    span: TimeRange,
    /// Parsed plain text.
    text: LocalizedText,
    /// Original markup (`""` = none); render-only.
    styled_text: String,
    /// Inline rendered bitmap (empty = none).
    image: bytes::Bytes,
    /// Text read from `image` by OCR.
    ocr_text: LocalizedText,
}

impl<Id> SubtitleCue<Id> {
    /// Stored `id`.
    pub closed spec fn spec_id(self) -> Id {
        self.id
    }

    /// Stored `subtitle_track_id`.
    pub closed spec fn spec_subtitle_track_id(self) -> Id {
        self.subtitle_track_id
    }

    /// Stored `index`.
    pub closed spec fn spec_index(self) -> u32 {
        self.index
    }

    /// Stored `span`.
    pub closed spec fn spec_span(self) -> TimeRange {
        self.span
    }

    /// Stored `text`.
    pub closed spec fn spec_text(self) -> LocalizedText {
        self.text
    }

    /// Stored `styled_text`.
    pub closed spec fn spec_styled_text(self) -> Seq<char> {
        self.styled_text@
    }

    /// Stored `image`.
    pub closed spec fn spec_image(self) -> Seq<u8> {
        bytes_contents(self.image)
    }

    /// Stored `ocr_text`.
    pub closed spec fn spec_ocr_text(self) -> LocalizedText {
        self.ocr_text
    }

}

impl SubtitleCue<Uuid7> {
    /// Why a cue with these ids and content cannot be built, if it cannot:
    /// a nil `id`, then a nil `subtitle_track_id`, then the content rule.
    pub open spec fn new_error(id: Uuid7, subtitle_track_id: Uuid7, text: LocalizedText, image: Seq<u8>, ocr_text: LocalizedText) -> Option<SubtitleCueError> {
        if is_nil_bytes(id@) {
            Some(SubtitleCueError::NilId)
        } else if is_nil_bytes(subtitle_track_id@) {
            Some(SubtitleCueError::NilSubtitleTrackId)
        } else {
            cue_content_error(text, image, ocr_text)
        }
    }

    /// Validating constructor: rejects a nil `id`, a nil `subtitle_track_id`,
    /// OCR text without a bitmap and a fully blank cue, in that order.
    pub fn try_new(
        id: Uuid7,
        subtitle_track_id: Uuid7,
        index: u32,
        span: TimeRange,
        text: LocalizedText,
        styled_text: &str,
        image: bytes::Bytes,
        ocr_text: LocalizedText,
    ) -> (r: Result<Self, SubtitleCueError>)
        ensures
            (r is Err) <==> Self::new_error(id, subtitle_track_id, text, bytes_contents(image), ocr_text) is Some,
            r matches Err(e) ==> Self::new_error(id, subtitle_track_id, text, bytes_contents(image), ocr_text)
                == Some(e),
            r matches Ok(x) ==> {
                &&& x.spec_id() == id
                &&& x.spec_subtitle_track_id() == subtitle_track_id
                &&& x.spec_index() == index
                &&& x.spec_span() == span
                &&& x.spec_text() == text
                &&& x.spec_styled_text() == styled_text@
                &&& x.spec_image() == bytes_contents(image)
                &&& x.spec_ocr_text() == ocr_text
            },
    {
        if id.is_nil() {
            return Err(SubtitleCueError::NilId);
        }
        if subtitle_track_id.is_nil() {
            return Err(SubtitleCueError::NilSubtitleTrackId);
        }
        match validate_content(&text, &image, &ocr_text) {
            Err(e) => Err(e),
            Ok(()) => Ok(
                SubtitleCue {
                    id,
                    subtitle_track_id,
                    index,
                    span,
                    text,
                    styled_text: styled_text.to_owned(),
                    image,
                    ocr_text,
                },
            ),
        }
    }

    /// Text-cue constructor: [`Self::try_new`] with no markup, no bitmap and
    /// no OCR text (so a blank `text` is rejected as `BlankCue`).
    pub fn try_new_text(id: Uuid7, subtitle_track_id: Uuid7, index: u32, span: TimeRange, text: LocalizedText) -> (r:
        Result<Self, SubtitleCueError>)
        ensures
            r is Ok <==> !is_nil_bytes(id@) && !is_nil_bytes(subtitle_track_id@) && !text.spec_is_empty(),
            is_nil_bytes(id@) <==> r == Err::<Self, SubtitleCueError>(SubtitleCueError::NilId),
            !is_nil_bytes(id@) && is_nil_bytes(subtitle_track_id@) <==> r == Err::<Self, SubtitleCueError>(
                SubtitleCueError::NilSubtitleTrackId,
            ),
            !is_nil_bytes(id@) && !is_nil_bytes(subtitle_track_id@) && text.spec_is_empty() <==> r == Err::<
                Self,
                SubtitleCueError,
            >(SubtitleCueError::BlankCue),
            r matches Ok(x) ==> {
                &&& x.spec_id() == id
                &&& x.spec_subtitle_track_id() == subtitle_track_id
                &&& x.spec_index() == index
                &&& x.spec_span() == span
                &&& x.spec_text() == text
                &&& x.spec_styled_text() == Seq::<char>::empty()
                &&& x.spec_image() == Seq::<u8>::empty()
                &&& x.spec_ocr_text().spec_is_empty()
            },
    {
        proof {
            reveal_strlit("");
        }
        Self::try_new(id, subtitle_track_id, index, span, text, "", bytes_empty(), LocalizedText::new())
    }
}

impl<Id> SubtitleCue<Id> {
    /// Every cue satisfies the content rule.
    #[verifier::type_invariant]
    spec fn content_invariant(self) -> bool {
        cue_content_error(self.text, bytes_contents(self.image), self.ocr_text) is None
    }

    /// True iff the cue carries no content of any kind.
    pub open spec fn spec_is_blank(self) -> bool {
        self.spec_text().spec_is_empty() && self.spec_ocr_text().spec_is_empty() && self.spec_image().len() == 0
    }

    /// Canonical identity.
    pub fn id_ref(&self) -> (r: &Id)
        ensures
            *r == self.spec_id(),
    {
        &self.id
    }

    /// FK → `SubtitleTrack.id`.
    pub fn subtitle_track_id_ref(&self) -> (r: &Id)
        ensures
            *r == self.spec_subtitle_track_id(),
    {
        &self.subtitle_track_id
    }

    /// 0-based ordinal within the track.
    pub fn index(&self) -> (r: u32)
        ensures
            r == self.spec_index(),
    {
        self.index
    }

    /// On-screen interval.
    pub fn span_ref(&self) -> (r: &TimeRange)
        ensures
            *r == self.spec_span(),
    {
        &self.span
    }

    /// Parsed plain text.
    pub fn text_ref(&self) -> (r: &LocalizedText)
        ensures
            *r == self.spec_text(),
    {
        &self.text
    }

    /// Original markup (`""` = none).
    pub fn styled_text(&self) -> (r: &str)
        ensures
            r@ == self.spec_styled_text(),
    {
        self.styled_text.as_str()
    }

    /// Inline rendered bitmap (empty = none).
    pub fn image(&self) -> (r: &[u8])
        ensures
            r@ == self.spec_image(),
    {
        bytes_as_slice(&self.image)
    }

    /// Text read from `image` by OCR; present only when the cue has a bitmap.
    pub fn ocr_text_ref(&self) -> (r: &LocalizedText)
        ensures
            *r == self.spec_ocr_text(),
            !r.spec_is_empty() ==> self.spec_image().len() > 0,
    {
        proof {
            use_type_invariant(self);
        }
        &self.ocr_text
    }

    /// True when the cue carries no content of any kind; never the case for
    /// a cue, by the content rule.
    pub fn is_blank(&self) -> (r: bool)
        ensures
            r == self.spec_is_blank(),
            !r,
    {
        proof {
            use_type_invariant(self);
        }
        self.text.is_empty() && self.ocr_text.is_empty() && bytes_is_empty(&self.image)
    }

    /// Builder: replace `index`.
    pub fn with_index(self, v: u32) -> (r: Self)
        ensures
            r.spec_index() == v,
            r.spec_id() == self.spec_id(),
            r.spec_subtitle_track_id() == self.spec_subtitle_track_id(),
            r.spec_span() == self.spec_span(),
            r.spec_text() == self.spec_text(),
            r.spec_styled_text() == self.spec_styled_text(),
            r.spec_image() == self.spec_image(),
            r.spec_ocr_text() == self.spec_ocr_text(),
    {
        proof {
            use_type_invariant(&self);
        }
        let mut s = self;
        s.index = v;
        s
    }

    /// Builder: replace `span`.
    pub fn with_span(self, v: TimeRange) -> (r: Self)
        ensures
            r.spec_span() == v,
            r.spec_id() == self.spec_id(),
            r.spec_subtitle_track_id() == self.spec_subtitle_track_id(),
            r.spec_index() == self.spec_index(),
            r.spec_text() == self.spec_text(),
            r.spec_styled_text() == self.spec_styled_text(),
            r.spec_image() == self.spec_image(),
            r.spec_ocr_text() == self.spec_ocr_text(),
    {
        proof {
            use_type_invariant(&self);
        }
        let mut s = self;
        s.span = v;
        s
    }

    /// Builder: replace `styled_text` (render-only).
    pub fn with_styled_text(self, v: &str) -> (r: Self)
        ensures
            r.spec_styled_text() == v@,
            r.spec_id() == self.spec_id(),
            r.spec_subtitle_track_id() == self.spec_subtitle_track_id(),
            r.spec_index() == self.spec_index(),
            r.spec_span() == self.spec_span(),
            r.spec_text() == self.spec_text(),
            r.spec_image() == self.spec_image(),
            r.spec_ocr_text() == self.spec_ocr_text(),
    {
        proof {
            use_type_invariant(&self);
        }
        let mut s = self;
        s.styled_text = v.to_owned();
        s
    }

    /// In-place mutator for `index`.
    pub fn set_index(&mut self, v: u32) -> (r: &mut Self)
        ensures
            *final(self) == *final(r),
            r.spec_index() == v,
            r.spec_id() == old(self).spec_id(),
            r.spec_subtitle_track_id() == old(self).spec_subtitle_track_id(),
            r.spec_span() == old(self).spec_span(),
            r.spec_text() == old(self).spec_text(),
            r.spec_styled_text() == old(self).spec_styled_text(),
            r.spec_image() == old(self).spec_image(),
            r.spec_ocr_text() == old(self).spec_ocr_text(),
    {
        proof {
            use_type_invariant(&*self);
        }
        self.index = v;
        self
    }

    /// In-place mutator for `span`.
    pub fn set_span(&mut self, v: TimeRange) -> (r: &mut Self)
        ensures
            *final(self) == *final(r),
            r.spec_span() == v,
            r.spec_id() == old(self).spec_id(),
            r.spec_subtitle_track_id() == old(self).spec_subtitle_track_id(),
            r.spec_index() == old(self).spec_index(),
            r.spec_text() == old(self).spec_text(),
            r.spec_styled_text() == old(self).spec_styled_text(),
            r.spec_image() == old(self).spec_image(),
            r.spec_ocr_text() == old(self).spec_ocr_text(),
    {
        proof {
            use_type_invariant(&*self);
        }
        self.span = v;
        self
    }

    /// In-place mutator for `styled_text` (render-only).
    pub fn set_styled_text(&mut self, v: &str) -> (r: &mut Self)
        ensures
            *final(self) == *final(r),
            r.spec_styled_text() == v@,
            r.spec_id() == old(self).spec_id(),
            r.spec_subtitle_track_id() == old(self).spec_subtitle_track_id(),
            r.spec_index() == old(self).spec_index(),
            r.spec_span() == old(self).spec_span(),
            r.spec_text() == old(self).spec_text(),
            r.spec_image() == old(self).spec_image(),
            r.spec_ocr_text() == old(self).spec_ocr_text(),
    {
        proof {
            use_type_invariant(&*self);
        }
        self.styled_text = v.to_owned();
        self
    }

    /// Fallible builder: replace `text`; rejected when the cue would be blank.
    pub fn try_with_text(self, v: LocalizedText) -> (r: Result<Self, SubtitleCueError>)
        ensures
            (r is Err) <==> cue_content_error(v, self.spec_image(), self.spec_ocr_text()) is Some,
            r matches Err(e) ==> cue_content_error(v, self.spec_image(), self.spec_ocr_text()) == Some(e),
            r matches Ok(x) ==> x.spec_text() == v
                && x.spec_id() == self.spec_id()
                && x.spec_subtitle_track_id() == self.spec_subtitle_track_id()
                && x.spec_index() == self.spec_index()
                && x.spec_span() == self.spec_span()
                && x.spec_styled_text() == self.spec_styled_text()
                && x.spec_image() == self.spec_image()
                && x.spec_ocr_text() == self.spec_ocr_text()
                ,
    {
        match validate_content(&v, &self.image, &self.ocr_text) {
            Err(e) => Err(e),
            Ok(()) => {
                let mut s = self;
                s.text = v;
                Ok(s)
            },
        }
    }

    /// Fallible builder: replace `image`; rejected when it would orphan the OCR
    /// text or blank the cue.
    pub fn try_with_image(self, v: bytes::Bytes) -> (r: Result<Self, SubtitleCueError>)
        ensures
            (r is Err) <==> cue_content_error(self.spec_text(), bytes_contents(v), self.spec_ocr_text()) is Some,
            r matches Err(e) ==> cue_content_error(self.spec_text(), bytes_contents(v), self.spec_ocr_text()) == Some(e),
            r matches Ok(x) ==> x.spec_image() == bytes_contents(v)
                && x.spec_id() == self.spec_id()
                && x.spec_subtitle_track_id() == self.spec_subtitle_track_id()
                && x.spec_index() == self.spec_index()
                && x.spec_span() == self.spec_span()
                && x.spec_text() == self.spec_text()
                && x.spec_styled_text() == self.spec_styled_text()
                && x.spec_ocr_text() == self.spec_ocr_text()
                ,
    {
        match validate_content(&self.text, &v, &self.ocr_text) {
            Err(e) => Err(e),
            Ok(()) => {
                let mut s = self;
                s.image = v;
                Ok(s)
            },
        }
    }

    /// Fallible builder: replace `ocr_text`; rejected without a bitmap or when
    /// the cue would be blank.
    pub fn try_with_ocr_text(self, v: LocalizedText) -> (r: Result<Self, SubtitleCueError>)
        ensures
            (r is Err) <==> cue_content_error(self.spec_text(), self.spec_image(), v) is Some,
            r matches Err(e) ==> cue_content_error(self.spec_text(), self.spec_image(), v) == Some(e),
            r matches Ok(x) ==> x.spec_ocr_text() == v
                && x.spec_id() == self.spec_id()
                && x.spec_subtitle_track_id() == self.spec_subtitle_track_id()
                && x.spec_index() == self.spec_index()
                && x.spec_span() == self.spec_span()
                && x.spec_text() == self.spec_text()
                && x.spec_styled_text() == self.spec_styled_text()
                && x.spec_image() == self.spec_image()
                ,
    {
        match validate_content(&self.text, &self.image, &v) {
            Err(e) => Err(e),
            Ok(()) => {
                let mut s = self;
                s.ocr_text = v;
                Ok(s)
            },
        }
    }

    /// Fallible in-place mutator for `text`; on rejection the cue is unchanged.
    pub fn try_set_text(&mut self, v: LocalizedText) -> (r: Result<&mut Self, SubtitleCueError>)
        ensures
            (r is Err) <==> cue_content_error(v, old(self).spec_image(), old(self).spec_ocr_text()) is Some,
            r matches Err(e) ==> cue_content_error(v, old(self).spec_image(), old(self).spec_ocr_text()) == Some(e) && *final(self) == *old(self),
            r matches Ok(x) ==> *final(self) == *final(x) && x.spec_text() == v
                && x.spec_id() == old(self).spec_id()
                && x.spec_subtitle_track_id() == old(self).spec_subtitle_track_id()
                && x.spec_index() == old(self).spec_index()
                && x.spec_span() == old(self).spec_span()
                && x.spec_styled_text() == old(self).spec_styled_text()
                && x.spec_image() == old(self).spec_image()
                && x.spec_ocr_text() == old(self).spec_ocr_text()
                ,
    {
        match validate_content(&v, &self.image, &self.ocr_text) {
            Err(e) => Err(e),
            Ok(()) => {
                self.text = v;
                Ok(self)
            },
        }
    }

    /// Fallible in-place mutator for `image`; on rejection the cue is
    /// unchanged.
    pub fn try_set_image(&mut self, v: bytes::Bytes) -> (r: Result<&mut Self, SubtitleCueError>)
        ensures
            (r is Err) <==> cue_content_error(old(self).spec_text(), bytes_contents(v), old(self).spec_ocr_text()) is Some,
            r matches Err(e) ==> cue_content_error(old(self).spec_text(), bytes_contents(v), old(self).spec_ocr_text()) == Some(e) && *final(self) == *old(self),
            r matches Ok(x) ==> *final(self) == *final(x) && x.spec_image() == bytes_contents(v)
                && x.spec_id() == old(self).spec_id()
                && x.spec_subtitle_track_id() == old(self).spec_subtitle_track_id()
                && x.spec_index() == old(self).spec_index()
                && x.spec_span() == old(self).spec_span()
                && x.spec_text() == old(self).spec_text()
                && x.spec_styled_text() == old(self).spec_styled_text()
                && x.spec_ocr_text() == old(self).spec_ocr_text()
                ,
    {
        match validate_content(&self.text, &v, &self.ocr_text) {
            Err(e) => Err(e),
            Ok(()) => {
                self.image = v;
                Ok(self)
            },
        }
    }

    /// Fallible in-place mutator for `ocr_text`; on rejection the cue is
    /// unchanged.
    pub fn try_set_ocr_text(&mut self, v: LocalizedText) -> (r: Result<&mut Self, SubtitleCueError>)
        ensures
            (r is Err) <==> cue_content_error(old(self).spec_text(), old(self).spec_image(), v) is Some,
            r matches Err(e) ==> cue_content_error(old(self).spec_text(), old(self).spec_image(), v) == Some(e) && *final(self) == *old(self),
            r matches Ok(x) ==> *final(self) == *final(x) && x.spec_ocr_text() == v
                && x.spec_id() == old(self).spec_id()
                && x.spec_subtitle_track_id() == old(self).spec_subtitle_track_id()
                && x.spec_index() == old(self).spec_index()
                && x.spec_span() == old(self).spec_span()
                && x.spec_text() == old(self).spec_text()
                && x.spec_styled_text() == old(self).spec_styled_text()
                && x.spec_image() == old(self).spec_image()
                ,
    {
        match validate_content(&self.text, &self.image, &v) {
            Err(e) => Err(e),
            Ok(()) => {
                self.ocr_text = v;
                Ok(self)
            },
        }
    }
}

impl<Id: Clone> Clone for SubtitleCue<Id> {
    /// A field-by-field copy; the content is the same, so the copy keeps the
    /// content rule.
    fn clone(&self) -> (r: Self)
        ensures
            r.spec_index() == self.spec_index(),
            r.spec_span() == self.spec_span(),
            r.spec_text() == self.spec_text(),
            r.spec_styled_text() == self.spec_styled_text(),
            r.spec_image() == self.spec_image(),
            r.spec_ocr_text() == self.spec_ocr_text(),
    {
        proof {
            use_type_invariant(self);
        }
        SubtitleCue {
            id: self.id.clone(),
            subtitle_track_id: self.subtitle_track_id.clone(),
            index: self.index,
            span: self.span,
            text: self.text.clone(),
            styled_text: self.styled_text.clone(),
            image: self.image.clone(),
            ocr_text: self.ocr_text.clone(),
        }
    }
}

} // verus!
