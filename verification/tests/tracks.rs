use indexmap::IndexMap;
use mediaframe::disposition::TrackDisposition;
use mediaschema::attachment::{AttachmentTrack, AttachmentTrackError, BlobRef, BlobRefError};
use mediaschema::chapter::{Chapter, ChapterError, MAX_CHAPTER_METADATA_ENTRIES, MAX_CHAPTER_TITLE_BYTES};
use mediaschema::data_track::{DataTrack, DataTrackError};
use mediaschema::errors::{ErrorCode, ErrorInfo};
use mediaschema::flags::{AttachmentIndexStatus, DataIndexStatus};
use mediaschema::primitives::Uuid7;
use mediaschema::time::{MediaTimestamp, TimeRange, Timebase};

fn tb() -> Timebase {
    Timebase::new(1, 1000)
}

fn chapter() -> Chapter {
    Chapter::try_new(Uuid7::new(), Uuid7::new(), 0, 0, TimeRange::new(0, 1000, tb())).expect("well-formed")
}

// ---- Chapter -------------------------------------------------------------

#[test]
fn try_new_accepts_well_formed() {
    let c = chapter();
    assert_eq!(c.index(), 0);
    assert_eq!(c.source_id(), 0);
    assert!(c.title().is_empty());
    assert!(c.metadata_ref().is_empty());
}

#[test]
fn chapter_try_new_rejects_nil_id() {
    let err = Chapter::try_new(Uuid7::nil(), Uuid7::new(), 0, 0, TimeRange::new(0, 1000, tb())).unwrap_err();
    assert!(err.is_nil_id());
}

#[test]
fn chapter_try_new_rejects_nil_media_id() {
    let err = Chapter::try_new(Uuid7::new(), Uuid7::nil(), 0, 0, TimeRange::new(0, 1000, tb())).unwrap_err();
    assert!(err.is_nil_media_id());
}

#[test]
fn try_with_title_rejects_oversize() {
    let c = chapter();
    let huge = String::from_utf8(vec![b'a'; MAX_CHAPTER_TITLE_BYTES + 1]).unwrap();
    let err = c.try_with_title(&huge).unwrap_err();
    assert!(matches!(err, ChapterError::TitleTooLong { got } if got == MAX_CHAPTER_TITLE_BYTES + 1));
}

#[test]
fn try_with_metadata_rejects_oversize() {
    let c = chapter();
    let mut huge = IndexMap::new();
    for i in 0..(MAX_CHAPTER_METADATA_ENTRIES + 1) {
        huge.insert(format!("k{i}"), String::from("v"));
    }
    let err = c.try_with_metadata(huge).unwrap_err();
    assert!(matches!(err, ChapterError::MetadataTooLarge { got } if got == MAX_CHAPTER_METADATA_ENTRIES + 1));
}

#[test]
fn metadata_preserves_insertion_order() {
    let c = chapter();
    let mut bag = IndexMap::new();
    bag.insert(String::from("artist"), String::from("Beethoven"));
    bag.insert(String::from("genre"), String::from("classical"));
    bag.insert(String::from("year"), String::from("1808"));
    let c = c.try_with_metadata(bag).expect("ok");
    let keys: Vec<&str> = c.metadata_ref().keys().map(|k| k.as_str()).collect();
    assert_eq!(keys, vec!["artist", "genre", "year"]);
}

#[test]
fn chapter_title_cap_counts_utf8_bytes_and_accepts_the_cap() {
    let c = chapter();
    let at_cap = "a".repeat(MAX_CHAPTER_TITLE_BYTES);
    let c = c.try_with_title(&at_cap).expect("exactly at the cap");
    assert_eq!(c.title().len(), MAX_CHAPTER_TITLE_BYTES);
    // 1366 three-byte characters: 4098 bytes, over the cap.
    let wide = "€".repeat(1366);
    let mut c = c;
    let err = c.try_set_title(&wide).unwrap_err();
    assert_eq!(err, ChapterError::TitleTooLong { got: 4098 });
    assert_eq!(c.title(), at_cap.as_str(), "rejected setter leaves the title");
    c.try_set_title("Intro").unwrap();
    assert_eq!(c.title_ref(), "Intro");
}

#[test]
fn chapter_error_messages_render_the_count() {
    assert_eq!(ChapterError::TitleTooLong { got: 4097 }.message(), "Chapter.title exceeds 4096 bytes: got 4097");
    assert_eq!(
        ChapterError::MetadataTooLarge { got: 5000 }.message(),
        "Chapter.metadata exceeds 4096 entries: got 5000"
    );
    assert_eq!(ChapterError::NilId.message(), "Chapter.id must be non-nil");
    assert_eq!(ChapterError::NilMediaId.message(), "Chapter.media_id must be non-nil");
    assert_eq!(ChapterError::TitleTooLong { got: 0 }.message(), "Chapter.title exceeds 4096 bytes: got 0");
}

#[test]
fn chapter_builders_setters_and_parts() {
    let mut c = chapter().with_index(3).with_source_id(-7).with_time_range(TimeRange::new(5, 9, tb()));
    assert_eq!(c.index(), 3);
    assert_eq!(c.source_id(), -7);
    assert_eq!(c.time_range_ref().end_pts(), 9);
    c.set_index(4).set_source_id(8);
    let mut bag = IndexMap::new();
    bag.insert(String::from("k"), String::from("v"));
    c.try_set_metadata(bag).unwrap();
    let parts = c.clone().into_parts();
    assert_eq!(parts.index, 4);
    assert_eq!(parts.source_id, 8);
    assert_eq!(parts.metadata.len(), 1);
}

// ---- DataTrack -----------------------------------------------------------

#[test]
fn track_try_new_happy_path() {
    let data_id = Uuid7::new();
    let t = DataTrack::try_new(Uuid7::new(), data_id).expect("valid construction must succeed");
    assert_eq!(t.data_id_ref(), &data_id);
    assert!(t.codec().is_empty());
    assert!(t.codec_tag().is_empty());
    assert_eq!(t.byte_size(), 0);
    assert!(t.nb_packets().is_none());
    assert_eq!(t.index_status(), DataIndexStatus::empty());
    assert!(t.metadata_ref().is_empty());
    assert!(t.disposition().is_empty());
}

#[test]
fn track_try_new_rejects_nil_id() {
    let r = DataTrack::try_new(Uuid7::nil(), Uuid7::new());
    assert_eq!(r.err(), Some(DataTrackError::NilId));
    assert!(DataTrackError::NilId.is_nil_id());
}

#[test]
fn try_new_rejects_nil_data_id() {
    let r = DataTrack::try_new(Uuid7::new(), Uuid7::nil());
    assert_eq!(r.err(), Some(DataTrackError::NilDataId));
    assert!(DataTrackError::NilDataId.is_nil_data_id());
}

#[test]
fn track_builders_chain() {
    let t = DataTrack::try_new(Uuid7::new(), Uuid7::new())
        .unwrap()
        .with_stream_index(Some(3))
        .with_container_track_id(Some(7))
        .with_codec("rtmd")
        .with_codec_tag("rtmd")
        .with_start_pts(Some(MediaTimestamp::new(0, tb())))
        .try_with_duration(Some(MediaTimestamp::new(90_000, tb())))
        .unwrap()
        .with_nb_packets(Some(2_700))
        .with_byte_size(1_024)
        .with_disposition(TrackDisposition::empty())
        .with_index_status(DataIndexStatus::PROBED())
        .with_index_errors(vec![ErrorInfo::new(ErrorCode::ProbeCorrupt, "x")]);
    assert_eq!(t.stream_index(), Some(3));
    assert_eq!(t.container_track_id(), Some(7));
    assert_eq!(t.codec(), "rtmd");
    assert_eq!(t.codec_tag(), "rtmd");
    assert_eq!(t.nb_packets(), Some(2_700));
    assert_eq!(t.byte_size(), 1_024);
    assert!(t.index_status().contains(DataIndexStatus::PROBED()));
    assert_eq!(t.index_errors_slice().len(), 1);
}

#[test]
fn track_try_with_duration_rejects_negative() {
    let r = DataTrack::try_new(Uuid7::new(), Uuid7::new())
        .unwrap()
        .try_with_duration(Some(MediaTimestamp::new(-1, tb())));
    assert_eq!(r.err(), Some(DataTrackError::NegativeDuration));
    assert!(DataTrackError::NegativeDuration.is_negative_duration());
}

#[test]
fn track_setters_mutate_in_place() {
    let mut t = DataTrack::try_new(Uuid7::new(), Uuid7::new()).unwrap();
    t.set_codec("gpmf");
    t.set_byte_size(42);
    t.set_index_status(DataIndexStatus::PROBED());
    assert_eq!(t.codec(), "gpmf");
    assert_eq!(t.byte_size(), 42);
    assert!(t.index_status().contains(DataIndexStatus::PROBED()));
}

#[test]
fn track_into_parts_and_rehydrate_round_trip() {
    let t = DataTrack::try_new(Uuid7::new(), Uuid7::new())
        .unwrap()
        .with_codec("klv")
        .with_byte_size(99)
        .with_index_status(DataIndexStatus::PROBED());
    let parts = t.clone().into_parts();
    let t2 = DataTrack::rehydrate(parts);
    assert_eq!(t, t2);
}

#[test]
fn data_track_try_set_duration_keeps_value_on_rejection() {
    let mut t = DataTrack::try_new(Uuid7::new(), Uuid7::new()).unwrap();
    t.try_set_duration(Some(MediaTimestamp::new(10, tb()))).unwrap();
    assert_eq!(t.try_set_duration(Some(MediaTimestamp::new(-5, tb()))).err(), Some(DataTrackError::NegativeDuration));
    assert_eq!(t.duration_ref().map(|d| d.pts()), Some(10));
    t.try_set_duration(None).unwrap();
    assert!(t.duration_ref().is_none());
    assert_eq!(DataTrackError::NilDataId.message(), "DataTrack `data_id` (FK → Data) must not be the nil UUID");
}

// ---- AttachmentTrack / BlobRef -------------------------------------------

#[test]
fn blob_try_new_happy_path() {
    let b = BlobRef::try_new("file:///fonts/a.ttf", 4_096, "font/ttf").expect("valid");
    assert_eq!(b.uri(), "file:///fonts/a.ttf");
    assert_eq!(b.byte_size(), 4_096);
    assert_eq!(b.content_type(), "font/ttf");
}

#[test]
fn try_new_rejects_empty_uri() {
    let r = BlobRef::try_new("", 0, "");
    assert_eq!(r.err(), Some(BlobRefError::EmptyUri));
    assert!(BlobRefError::EmptyUri.is_empty_uri());
}

#[test]
fn attachment_track_try_new_happy_path() {
    let attachment_id = Uuid7::new();
    let t = AttachmentTrack::try_new(Uuid7::new(), attachment_id).expect("valid construction must succeed");
    assert_eq!(t.attachment_id_ref(), &attachment_id);
    assert!(t.codec().is_empty());
    assert!(t.filename().is_empty());
    assert!(t.mimetype().is_empty());
    assert_eq!(t.byte_size(), 0);
    assert!(t.blob_ref().is_none(), "blob defaults to None");
    assert_eq!(t.index_status(), AttachmentIndexStatus::empty());
}

#[test]
fn attachment_track_try_new_rejects_nil_id() {
    let r = AttachmentTrack::try_new(Uuid7::nil(), Uuid7::new());
    assert_eq!(r.err(), Some(AttachmentTrackError::NilId));
    assert!(AttachmentTrackError::NilId.is_nil_id());
}

#[test]
fn try_new_rejects_nil_attachment_id() {
    let r = AttachmentTrack::try_new(Uuid7::new(), Uuid7::nil());
    assert_eq!(r.err(), Some(AttachmentTrackError::NilAttachmentId));
    assert!(AttachmentTrackError::NilAttachmentId.is_nil_attachment_id());
}

#[test]
fn attachment_track_builders_chain() {
    let t = AttachmentTrack::try_new(Uuid7::new(), Uuid7::new())
        .unwrap()
        .with_stream_index(Some(4))
        .with_codec("ttf")
        .with_filename("font.ttf")
        .with_mimetype("font/ttf")
        .with_byte_size(4_096)
        .with_index_status(AttachmentIndexStatus::PROBED())
        .with_index_errors(vec![ErrorInfo::new(ErrorCode::ProbeCorrupt, "x")]);
    assert_eq!(t.stream_index(), Some(4));
    assert_eq!(t.codec(), "ttf");
    assert_eq!(t.filename(), "font.ttf");
    assert_eq!(t.mimetype(), "font/ttf");
    assert_eq!(t.byte_size(), 4_096);
    assert!(t.index_status().contains(AttachmentIndexStatus::PROBED()));
    assert_eq!(t.index_errors_slice().len(), 1);
    assert!(t.blob_ref().is_none());
}

#[test]
fn blob_slot_round_trips_when_set_and_when_none() {
    let blob = BlobRef::try_new("file:///x.ttf", 10, "font/ttf").unwrap();
    let t = AttachmentTrack::try_new(Uuid7::new(), Uuid7::new()).unwrap().with_blob(Some(blob.clone()));
    let t2 = AttachmentTrack::rehydrate(t.clone().into_parts());
    assert_eq!(t, t2);
    assert_eq!(t2.blob_ref(), Some(&blob));

    let none = AttachmentTrack::try_new(Uuid7::new(), Uuid7::new()).unwrap();
    let none2 = AttachmentTrack::rehydrate(none.clone().into_parts());
    assert_eq!(none, none2);
    assert!(none2.blob_ref().is_none());
}

#[test]
fn attachment_track_setters_mutate_in_place() {
    let mut t = AttachmentTrack::try_new(Uuid7::new(), Uuid7::new()).unwrap();
    t.set_codec("otf");
    t.set_filename("a.otf");
    t.set_byte_size(7);
    assert_eq!(t.codec(), "otf");
    assert_eq!(t.filename(), "a.otf");
    assert_eq!(t.byte_size(), 7);
}
