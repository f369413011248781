use vstd::prelude::*;
use crate::hex::{checksum_hex, hex8, hex_digit, nibble};
use crate::manifest::{free_of_whitespace, is_whitespace, splits_at_first_whitespace};
use crate::outcome::VerificationOutcome;

verus! {

/// One line of output of a unit of work, for the standard output stream or
/// for the error stream.
pub enum Report {
    Output(String),
    Error(String),
}

/// `<8-hex-digit checksum> <path>`.
pub open spec fn checksum_line_of(c: u32, path: Seq<char>) -> Seq<char> {
    hex8(c) + seq![' '] + path
}

/// The error line for a file whose checksum could not be computed.
pub open spec fn processing_error_of(subject: Seq<char>, reason: Seq<char>) -> Seq<char> {
    "Error processing "@ + subject + ": "@ + reason
}

/// The error line for a manifest record whose file could not be looked up.
pub open spec fn verifying_error_of(filename: Seq<char>, reason: Seq<char>) -> Seq<char> {
    "Error verifying "@ + filename + ": "@ + reason
}

/// The line that reports a checksum, computed or verified, for one file.
pub open spec fn report_of(
    given: Seq<char>,
    display: Result<String, String>,
    computed: Result<u32, String>,
) -> (Seq<char>, bool) {
    match display {
        Err(e) => (processing_error_of(given, e@), false),
        Ok(p) => match computed {
            Ok(c) => (checksum_line_of(c, p@), true),
            Err(e) => (processing_error_of(p@, e@), false),
        },
    }
}

impl Report {
    /// The text of the line.
    pub open spec fn text(self) -> Seq<char> {
        match self {
            Report::Output(s) => s@,
            Report::Error(s) => s@,
        }
    }

    /// Whether the line goes to the standard output stream.
    pub open spec fn is_output(self) -> bool {
        self is Output
    }
}

/// Writes `<8-hex-digit checksum> <path>`.
pub fn checksum_line(c: u32, path: &str) -> (r: String)
    ensures
        r@ == checksum_line_of(c, path@),
{
    let mut r = checksum_hex(c);
    r.append(" ");
    proof {
        reveal_strlit(" ");
    }
    assert(" "@ =~= seq![' ']);
    r.append(path);
    r
}

fn three_parts(head: &str, subject: &str, reason: &str) -> (r: String)
    ensures
        r@ == head@ + subject@ + ": "@ + reason@,
{
    let mut r = head.to_owned();
    r.append(subject);
    r.append(": ");
    r.append(reason);
    r
}

/// The path shown for a file: as discovered in local mode, otherwise the
/// fully resolved path, whose resolution may have failed.
pub fn display_path(local: bool, given: &str, resolved: Option<Result<String, String>>) -> (r: Result<String, String>)
    requires
        local || resolved is Some,
    ensures
        local ==> r is Ok && r->Ok_0@ == given@,
        !local ==> r == resolved->Some_0,
{
    if local {
        Ok(given.to_owned())
    } else {
        match resolved {
            Some(res) => res,
            None => Ok(given.to_owned()),
        }
    }
}

/// The line for one file of a checksum run: its checksum and display path,
/// or an error naming the path and the reason when the path could not be
/// resolved or the file could not be read.
pub fn checksum_report(given: &str, display: Result<String, String>, computed: Result<u32, String>) -> (r: Report)
    ensures
        (r.text(), r.is_output()) == report_of(given@, display, computed),
{
    match display {
        Err(e) => Report::Error(three_parts("Error processing ", given, e.as_str())),
        Ok(p) => match computed {
            Ok(c) => Report::Output(checksum_line(c, p.as_str())),
            Err(e) => Report::Error(three_parts("Error processing ", p.as_str(), e.as_str())),
        },
    }
}

/// The line for one manifest record: `<filename>: OK` on a match,
/// `<filename>: FAILED` on a mismatch, and an error line with the reason when
/// the file could not be looked up.
pub fn verify_report(filename: &str, outcome: VerificationOutcome) -> (r: Report)
    ensures
        outcome is Match ==> r is Output && r.text() == filename@ + ": OK"@,
        outcome is Mismatch ==> r is Output && r.text() == filename@ + ": FAILED"@,
        outcome is LookupFailed ==> r is Error && r.text() == verifying_error_of(
            filename@,
            outcome->LookupFailed_0@,
        ),
{
    match outcome {
        VerificationOutcome::Match => {
            let mut r = filename.to_owned();
            r.append(": OK");
            Report::Output(r)
        },
        VerificationOutcome::Mismatch => {
            let mut r = filename.to_owned();
            r.append(": FAILED");
            Report::Output(r)
        },
        VerificationOutcome::LookupFailed(e) => Report::Error(
            three_parts("Error verifying ", filename, e.as_str()),
        ),
    }
}


/// A line that a checksum run writes parses back into the checksum's text and
/// the path, whatever whitespace the path holds.
pub proof fn lemma_checksum_line_parses(c: u32, path: Seq<char>, checksum: Seq<char>, filename: Seq<char>)
    requires
        splits_at_first_whitespace(checksum_line_of(c, path), checksum, filename),
    ensures
        checksum == hex8(c),
        filename == path,
{
    let line = checksum_line_of(c, path);
    let h = hex8(c);
    assert forall|i: int| 0 <= i < 8 implies !is_whitespace(#[trigger] h[i]) by {
        let d = nibble(c, (7 - i) as u32);
        let shift = (4 * ((7 - i) as u32)) as u32;
        assert(d < 16) by (bit_vector)
            requires
                d == (c >> shift) & 15,
        ;
        assert(h[i] == hex_digit(d));
    }
    assert(line[8] == ' ');
    assert(!free_of_whitespace(line));
    let k = checksum.len() as int;
    if k < 8 {
        assert(line[k] == h[k]);
    }
    if k > 8 {
        assert(checksum[8] == line[8]);
    }
    assert(k == 8);
    assert(checksum =~= h);
    assert(filename =~= path);
}

} // verus!
