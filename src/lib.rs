//! Package origin inference for a `package.yml` editor: from a source URL it
//! derives the package's name and version, recognises the license and build
//! system inside a fetched zip archive, computes the source's content anchor,
//! and merges the results into the manifest without overwriting what the user
//! already filled in. Also normalises build-dependency names and holds the
//! editor's window and title-bar state.

/// Levenshtein distance.
pub mod distance;
/// License recognition from license text.
pub mod license;
/// Zip archive inspection: entry lookup, license and build-system detection.
pub mod archive;
/// Source URL classification and name/version extraction.
pub mod origin;
/// Content anchors: SHA-256 digests as hexadecimal text.
pub mod anchor;
/// Manifest fields, origin facts and their fusion; build-step table.
pub mod pkg;
/// Build-dependency normalisation and repository search ranking.
pub mod deps;
/// Title-bar state.
pub mod header;
/// Main-window state.
pub mod window;
