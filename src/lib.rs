//! Content checksums for files and verification against a checksum manifest.
//!
//! The library holds the decisions of the engine: the streaming checksum
//! accumulator, the textual form of a checksum, the manifest line parser, the
//! verification outcome, the enumeration depth policy and the report lines.
//! Reading files, walking directories and fanning work out to threads happen
//! around it.
pub mod checksum;
pub mod hex;
pub mod manifest;
pub mod outcome;
pub mod report;
pub mod walk;

pub use checksum::{checksum, checksum_chunks, ChecksumComputer, CHUNK_SIZE};
pub use hex::checksum_hex;
pub use manifest::{char_is_whitespace, parse_manifest_line, ManifestRecord};
pub use outcome::{verify_outcome, VerificationOutcome};
pub use report::{checksum_line, checksum_report, display_path, verify_report, Report};
pub use walk::DepthMode;
