//! Media-primitive domain schema: validated identities, indexing bitflags,
//! derived indexing stages and the domain aggregates built on them.

pub mod identified;

pub use identified::Identified;
pub mod flags;
pub mod text;
pub mod primitives;
pub mod errors;
pub mod location;
pub mod enums;
pub mod stages;
pub mod time;
pub mod progress;
pub mod facets;
pub mod external;
pub mod person;
pub mod curation;
pub mod watched_location;
pub mod speaker;
pub mod media_file;
pub mod media;
pub mod scene;
pub mod metadata;
pub mod chapter;
pub mod data_track;
pub mod attachment;
pub mod payload;
pub mod localized;
pub mod cue;
pub mod thumbnail;
pub mod geometry;
pub mod provenance;
pub mod descriptors;
pub mod video_track;
pub mod subtitle_ocr;
pub mod audio_rules;
pub mod keyframe_rules;
pub mod segment_rules;
pub mod subtitle_track;
pub mod detection_kinds;
pub mod audio_probe;
