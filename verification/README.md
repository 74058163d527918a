# mediaschema

The domain schema of a media index: validated identities (UUIDv7,
checksums, colours), the per-kind indexing status bitflags and the stages
derived from them, and the aggregates built on those (media files, media
facets, tracks, scenes, chapters, cues, thumbnails, people and speakers).

Layout:

- `src/` — the library, written in Verus. Every public function carries a
  `requires` / `ensures` contract that Verus proves (a few private helpers
  carry none, and are checked only through their callers); the laws that relate
  several functions (stage derivation, round trips, invariants kept by every
  mutator) are public proof functions next to the code they speak of. Calls
  into `uuid`, `jiff`, `mediaframe`, `indexmap` and `bytes` go through small
  trusted wrappers whose contracts are documented where they are declared.
- `tests/` — ordinary Rust tests of the library on concrete values.
- `app/` — the aggregates whose fields are floating point (scores,
  confidences, ratios, image-analysis payloads). They delegate every
  identity, span, status and pixel-dimension rule to the library; the checks
  on the floating-point values themselves (score ranges, the normalized
  bounding-box and document-quad geometry) stay there, unverified.
