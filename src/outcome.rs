use vstd::prelude::*;
use crate::checksum::crc32_of;
use crate::hex::{checksum_hex, hex8, lemma_hex8_injective};

verus! {

/// The result of checking one manifest record against the file it names.
pub enum VerificationOutcome {
    /// The file's checksum text equals the expected text.
    Match,
    /// The file was read and its checksum text differs from the expected text.
    Mismatch,
    /// The file could not be opened or read; the reason is kept.
    LookupFailed(String),
}

/// The outcome for an expected checksum text and the result of computing the
/// file's checksum: a failed computation is a failed lookup, otherwise the
/// computed checksum's text is compared with the expected text verbatim.
pub open spec fn outcome_of(expected: Seq<char>, computed: Result<u32, String>) -> VerificationOutcome {
    match computed {
        Ok(c) => if hex8(c) == expected {
            VerificationOutcome::Match
        } else {
            VerificationOutcome::Mismatch
        },
        Err(reason) => VerificationOutcome::LookupFailed(reason),
    }
}

/// Compares an expected checksum text with the result of computing the
/// checksum of the named file.
pub fn verify_outcome(expected: &str, computed: Result<u32, String>) -> (r: VerificationOutcome)
    ensures
        r == outcome_of(expected@, computed),
{
    match computed {
        Ok(c) => {
            let text = checksum_hex(c);
            let wanted = expected.to_owned();
            if text == wanted {
                VerificationOutcome::Match
            } else {
                VerificationOutcome::Mismatch
            }
        },
        Err(reason) => VerificationOutcome::LookupFailed(reason),
    }
}

/// Verifying bytes against their own freshly computed checksum text is a match.
pub proof fn lemma_fresh_checksum_matches(bytes: Seq<u8>)
    ensures
        outcome_of(hex8(crc32_of(bytes)), Ok(crc32_of(bytes))) == VerificationOutcome::Match,
{
}

/// Where changed content has a checksum other than the original's, verifying
/// the changed content against the original checksum text is a mismatch.
pub proof fn lemma_changed_content_mismatches(original: Seq<u8>, changed: Seq<u8>)
    requires
        crc32_of(original) != crc32_of(changed),
    ensures
        outcome_of(hex8(crc32_of(original)), Ok(crc32_of(changed)))
            == VerificationOutcome::Mismatch,
{
    if hex8(crc32_of(changed)) == hex8(crc32_of(original)) {
        lemma_hex8_injective(crc32_of(changed), crc32_of(original));
    }
}

/// A file that cannot be looked up is reported as a failed lookup with its
/// reason, never as a match or a mismatch, whatever the expected text.
pub proof fn lemma_lookup_failure_kept(expected: Seq<char>, reason: String)
    ensures
        outcome_of(expected, Err(reason)) == VerificationOutcome::LookupFailed(reason),
        outcome_of(expected, Err(reason)) != VerificationOutcome::Match,
        outcome_of(expected, Err(reason)) != VerificationOutcome::Mismatch,
{
}

} // verus!
