use jiff::Timestamp as JiffTimestamp;
use mediaframe::capture::{Device, GeoLocation};
use mediaframe::container::Format;
use mediaschema::enums::MediaKind;
use mediaschema::flags::MediaErrorFlags;
use mediaschema::location::Location;
use mediaschema::media::{Media, MediaError};
use mediaschema::media_file::{MediaFile, MediaFileError};
use mediaschema::primitives::{FileChecksum, Uuid7};
use mediaschema::time::{MediaTimestamp, Timebase};
use mediaschema::watched_location::WatchedLocation;

fn fake_checksum() -> FileChecksum {
    let mut bytes = [0u8; 32];
    bytes[0] = 0x01;
    FileChecksum::new(bytes)
}

fn real_ts() -> JiffTimestamp {
    JiffTimestamp::from_millisecond(1_700_000_000_000).expect("valid timestamp")
}

// ---- Media ---------------------------------------------------------------

#[test]
fn media_try_new_happy_path() {
    let id = Uuid7::new();
    let cs = fake_checksum();
    let m = Media::try_new(id, cs, Format::Mp4, 12_345, MediaKind::Video).expect("valid construction must succeed");
    assert_eq!(m.id(), &id);
    assert_eq!(m.checksum(), &cs);
    assert_eq!(m.format(), &Format::Mp4);
    assert_eq!(m.size(), 12_345);
    assert!(m.kind().is_video());
    assert!(m.files().is_empty(), "files start empty on construction");
    assert!(m.video().is_none());
    assert!(m.audio().is_none());
    assert!(m.subtitle().is_none());
    assert!(m.duration().is_none());
    assert_eq!(m.error_flags(), MediaErrorFlags::empty());
    assert!(m.probe_error().is_none());
    assert!(m.capture_date().is_none());
    assert!(m.device().is_none());
    assert!(m.gps().is_none());
}

#[test]
fn media_try_new_rejects_nil_id() {
    let r = Media::try_new(Uuid7::nil(), fake_checksum(), Format::Mp4, 0, MediaKind::Video);
    assert_eq!(r.err(), Some(MediaError::NilId));
    assert!(MediaError::NilId.is_nil_id());
}

#[test]
fn try_new_rejects_zero_checksum() {
    let r = Media::try_new(Uuid7::new(), FileChecksum::zero(), Format::Mp4, 0, MediaKind::Video);
    assert_eq!(r.err(), Some(MediaError::ZeroChecksum));
    assert!(MediaError::ZeroChecksum.is_zero_checksum());
}

#[test]
fn files_round_trip() {
    let a = Uuid7::new();
    let b = Uuid7::new();
    let m = Media::try_new(Uuid7::new(), fake_checksum(), Format::Mp4, 0, MediaKind::Video)
        .unwrap()
        .push_file(a)
        .with_files(vec![a, b]);
    assert_eq!(m.files(), &[a, b]);
    let mut m = m;
    let c = Uuid7::new();
    m.add_file(c);
    assert_eq!(m.files(), &[a, b, c]);
    m.set_files(vec![c]);
    assert_eq!(m.files(), &[c]);
}

#[test]
fn capture_date_stored_faithfully() {
    let epoch = JiffTimestamp::default();
    let m = Media::try_new(Uuid7::new(), fake_checksum(), Format::Mp4, 0, MediaKind::Video)
        .unwrap()
        .with_capture_date(Some(epoch));
    assert_eq!(m.capture_date(), Some(&epoch), "Some(epoch) must be preserved faithfully");
    let m = m.with_capture_date(Some(real_ts()));
    assert_eq!(m.capture_date(), Some(&real_ts()));
    let m = m.with_capture_date(None);
    assert!(m.capture_date().is_none());
    let mut m = m;
    m.set_capture_date(Some(epoch));
    assert_eq!(m.capture_date(), Some(&epoch));
}

#[test]
fn media_builders_chain() {
    let id = Uuid7::new();
    let video_id = Uuid7::new();
    let audio_id = Uuid7::new();
    let gps = GeoLocation::try_new(37.7749, -122.4194, Some(20.0)).expect("valid coordinates");
    let m = Media::try_new(id, fake_checksum(), Format::Mp4, 12_345, MediaKind::Video)
        .unwrap()
        .with_video(Some(video_id))
        .with_audio(Some(audio_id))
        .with_error_flags(MediaErrorFlags::VIDEO_ERROR())
        .with_capture_date(Some(real_ts()))
        .with_device(Some(Device::new().with_make("Apple").with_model("iPhone 15 Pro")))
        .with_gps(Some(gps));
    assert_eq!(m.video(), Some(&video_id));
    assert_eq!(m.audio(), Some(&audio_id));
    assert!(m.subtitle().is_none());
    assert_eq!(m.error_flags(), MediaErrorFlags::VIDEO_ERROR());
    assert!(m.capture_date().is_some());
    let dev = m.device().expect("device set");
    assert_eq!(dev.make(), "Apple");
    assert_eq!(dev.model(), "iPhone 15 Pro");
    let gps = m.gps().expect("gps set");
    assert_eq!(gps.lat(), 37.7749);
    assert_eq!(gps.lon(), -122.4194);
    assert_eq!(gps.altitude(), Some(20.0));
}

#[test]
fn media_setters_mutate_in_place() {
    let mut m = Media::try_new(Uuid7::new(), fake_checksum(), Format::Mp4, 0, MediaKind::Video).unwrap();
    m.set_video(Some(Uuid7::new()));
    m.set_error_flags(MediaErrorFlags::AUDIO_ERROR() | MediaErrorFlags::SUBTITLE_ERROR());
    m.set_gps(Some(GeoLocation::try_new(0.0, 0.0, None).expect("valid coordinates")));
    assert!(m.video().is_some());
    assert!(m.error_flags().contains(MediaErrorFlags::AUDIO_ERROR() | MediaErrorFlags::SUBTITLE_ERROR()));
    assert_eq!(m.gps().map(GeoLocation::altitude), Some(None));
}

fn sample_media() -> Media {
    Media::try_new(Uuid7::new(), fake_checksum(), Format::Mp4, 0, MediaKind::Video).unwrap()
}

fn pts(value: i64) -> MediaTimestamp {
    MediaTimestamp::new(value, Timebase::new(1, 1000))
}

#[test]
fn try_with_duration_accepts_zero_positive_and_none() {
    let m = sample_media().try_with_duration(Some(pts(0))).unwrap();
    assert_eq!(m.duration().map(MediaTimestamp::pts), Some(0));
    let m = m.try_with_duration(Some(pts(48_000))).unwrap();
    assert_eq!(m.duration().map(MediaTimestamp::pts), Some(48_000));
    let m = m.try_with_duration(None).unwrap();
    assert!(m.duration().is_none());
}

#[test]
fn media_try_with_duration_rejects_negative() {
    let r = sample_media().try_with_duration(Some(pts(-1)));
    assert_eq!(r.err(), Some(MediaError::NegativeDuration));
    assert!(MediaError::NegativeDuration.is_negative_duration());
}

#[test]
fn try_set_duration_accepts_zero_positive_and_none() {
    let mut m = sample_media();
    m.try_set_duration(Some(pts(0))).unwrap();
    assert_eq!(m.duration().map(MediaTimestamp::pts), Some(0));
    m.try_set_duration(Some(pts(48_000))).unwrap();
    assert_eq!(m.duration().map(MediaTimestamp::pts), Some(48_000));
    m.try_set_duration(None).unwrap();
    assert!(m.duration().is_none());
}

#[test]
fn try_set_duration_rejects_negative_and_preserves_prior_value() {
    let mut m = sample_media().try_with_duration(Some(pts(48_000))).unwrap();
    let r = m.try_set_duration(Some(pts(-1)));
    assert_eq!(r.err(), Some(MediaError::NegativeDuration));
    assert_eq!(
        m.duration().map(MediaTimestamp::pts),
        Some(48_000),
        "rejected try_set_duration must not mutate the prior value"
    );
}

// ---- MediaFile -----------------------------------------------------------

fn loc(volume: Uuid7) -> Location<Uuid7> {
    Location::try_local_uuid7(volume, &["Movies", "clip.mp4"]).expect("valid location")
}

fn named_loc(volume: Uuid7, name: &str) -> Location<Uuid7> {
    Location::try_local_uuid7(volume, &["Movies", name]).expect("valid location")
}

fn watch(volume: Uuid7) -> WatchedLocation<Uuid7> {
    WatchedLocation::try_new(Uuid7::new(), volume, JiffTimestamp::default()).expect("valid watch")
}

#[test]
fn media_file_try_new_happy_path() {
    let id = Uuid7::new();
    let media_id = Uuid7::new();
    let vol = Uuid7::new();
    let wl = watch(vol);
    let f = MediaFile::try_new(id, media_id, Some(real_ts()), loc(vol), &wl).expect("valid construction must succeed");
    assert_eq!(f.id_ref(), &id);
    assert_eq!(f.media_id_ref(), &media_id);
    assert_eq!(f.name(), "clip.mp4");
    assert_eq!(f.created_at_ref(), Some(&real_ts()));
    assert_eq!(f.watched_location_id_ref(), wl.id());
    assert_eq!(f.watch_volume_ref(), &vol);
    assert_eq!(f.location_ref().volume_ref(), &vol);
    assert_eq!(f.location_ref().components(), &["Movies", "clip.mp4"]);
}

#[test]
fn media_file_from_parts_round_trips_a_validated_instance() {
    let vol = Uuid7::new();
    let wl = watch(vol);
    let original = MediaFile::try_new(Uuid7::new(), Uuid7::new(), Some(real_ts()), loc(vol), &wl)
        .expect("valid construction must succeed");
    let rebuilt = MediaFile::from_parts(
        *original.id_ref(),
        *original.media_id_ref(),
        original.created_at_ref().copied(),
        original.location_ref().clone(),
        *original.watched_location_id_ref(),
        *original.watch_volume_ref(),
    );
    assert_eq!(rebuilt, original);
}

#[test]
fn name_is_derived_from_location() {
    let vol = Uuid7::new();
    let wl = watch(vol);
    let f = MediaFile::try_new(Uuid7::new(), Uuid7::new(), None, named_loc(vol, "holiday.mkv"), &wl).unwrap();
    assert_eq!(f.name(), "holiday.mkv");
    let f = f.try_with_location(named_loc(vol, "renamed.mp4")).expect("same-volume rename must succeed");
    assert_eq!(f.name(), "renamed.mp4");
}

#[test]
fn created_at_stored_faithfully() {
    let epoch = JiffTimestamp::default();
    let vol = Uuid7::new();
    let wl = watch(vol);
    let f = MediaFile::try_new(Uuid7::new(), Uuid7::new(), Some(epoch), loc(vol), &wl).unwrap();
    assert_eq!(f.created_at_ref(), Some(&epoch), "Some(epoch) must be preserved faithfully");
    let f = f.with_created_at(None);
    assert!(f.created_at_ref().is_none());
    let f = f.with_created_at(Some(real_ts()));
    assert_eq!(f.created_at_ref(), Some(&real_ts()));
    let mut f = f;
    f.set_created_at(Some(epoch));
    assert_eq!(f.created_at_ref(), Some(&epoch));
}

#[test]
fn media_file_try_new_rejects_nil_id() {
    let vol = Uuid7::new();
    let r = MediaFile::try_new(Uuid7::nil(), Uuid7::new(), Some(real_ts()), loc(vol), &watch(vol));
    assert_eq!(r.err(), Some(MediaFileError::NilId));
    assert!(MediaFileError::NilId.is_nil_id());
}

#[test]
fn media_file_try_new_rejects_nil_media_id() {
    let vol = Uuid7::new();
    let r = MediaFile::try_new(Uuid7::new(), Uuid7::nil(), Some(real_ts()), loc(vol), &watch(vol));
    assert_eq!(r.err(), Some(MediaFileError::NilMediaId));
    assert!(MediaFileError::NilMediaId.is_nil_media_id());
}

#[test]
fn try_new_rejects_cross_volume_watch() {
    let file_vol = Uuid7::new();
    let watch_vol = Uuid7::new();
    let r = MediaFile::try_new(Uuid7::new(), Uuid7::new(), Some(real_ts()), loc(file_vol), &watch(watch_vol));
    assert_eq!(r.err(), Some(MediaFileError::VolumeMismatch));
    assert!(MediaFileError::VolumeMismatch.is_volume_mismatch());
}

#[test]
fn try_set_location_rejects_cross_volume_move() {
    let vol = Uuid7::new();
    let wl = watch(vol);
    let mut f = MediaFile::try_new(Uuid7::new(), Uuid7::new(), None, named_loc(vol, "clip.mp4"), &wl).unwrap();
    let other_vol = Uuid7::new();
    let r = f.try_set_location(named_loc(other_vol, "moved.mp4"));
    assert_eq!(r.err(), Some(MediaFileError::VolumeMismatch));
    assert_eq!(f.name(), "clip.mp4", "rejected move must not mutate self");
    assert_eq!(f.location_ref().volume_ref(), &vol);
    f.try_set_location(named_loc(vol, "renamed.mp4")).expect("same-volume move must succeed");
    assert_eq!(f.name(), "renamed.mp4");
    let r = f.clone().try_with_location(named_loc(other_vol, "x.mp4"));
    assert_eq!(r.err(), Some(MediaFileError::VolumeMismatch));
}

#[test]
fn try_set_watched_location_rejects_cross_volume_watch() {
    let vol = Uuid7::new();
    let wl = watch(vol);
    let mut f = MediaFile::try_new(Uuid7::new(), Uuid7::new(), None, named_loc(vol, "clip.mp4"), &wl).unwrap();
    let other = watch(Uuid7::new());
    let r = f.try_set_watched_location(&other);
    assert_eq!(r.err(), Some(MediaFileError::VolumeMismatch));
    assert_eq!(f.watched_location_id_ref(), wl.id(), "rejected re-point must not mutate");
    let same_vol_watch = watch(vol);
    f.try_set_watched_location(&same_vol_watch).expect("same-volume re-point must succeed");
    assert_eq!(f.watched_location_id_ref(), same_vol_watch.id());
    assert_eq!(f.watch_volume_ref(), &vol);
}

#[test]
fn media_file_builders_chain() {
    let media_id = Uuid7::new();
    let vol = Uuid7::new();
    let wl = watch(vol);
    let f = MediaFile::try_new(Uuid7::new(), Uuid7::new(), None, named_loc(vol, "old.mp4"), &wl)
        .unwrap()
        .with_media_id(media_id)
        .try_with_location(named_loc(vol, "new.mkv"))
        .unwrap()
        .with_created_at(Some(real_ts()));
    assert_eq!(f.name(), "new.mkv");
    assert_eq!(f.media_id_ref(), &media_id);
    assert_eq!(f.created_at_ref(), Some(&real_ts()));
    assert_eq!(f.watched_location_id_ref(), wl.id());
    assert_eq!(f.location_ref().volume_ref(), &vol);
}

#[test]
fn media_file_setters_mutate_in_place() {
    let vol = Uuid7::new();
    let wl = watch(vol);
    let mut f =
        MediaFile::try_new(Uuid7::new(), Uuid7::new(), Some(real_ts()), named_loc(vol, "clip.mp4"), &wl).unwrap();
    let media_id = Uuid7::new();
    f.set_media_id(media_id);
    f.try_set_location(named_loc(vol, "renamed.mp4")).unwrap();
    f.set_created_at(None);
    assert_eq!(f.name(), "renamed.mp4");
    assert_eq!(f.media_id_ref(), &media_id);
    assert!(f.created_at_ref().is_none());
    assert_eq!(f.location_ref().volume_ref(), &vol);
}
