use vstd::prelude::*;

verus! {

/// A character of the Unicode `White_Space` property.
pub open spec fn is_whitespace(c: char) -> bool {
    let u = c as u32;
    (0x09 <= u <= 0x0d) || u == 0x20 || u == 0x85 || u == 0xa0 || u == 0x1680 || (0x2000
        <= u <= 0x200a) || u == 0x2028 || u == 0x2029 || u == 0x202f || u == 0x205f || u
        == 0x3000
}

/// No character of `s` is whitespace.
pub open spec fn free_of_whitespace(s: Seq<char>) -> bool {
    forall|i: int| 0 <= i < s.len() ==> !is_whitespace(#[trigger] s[i])
}

/// `checksum` and `filename` are the two fields of `line` split at its first
/// whitespace character, or the whole line and nothing when it has none.
pub open spec fn splits_at_first_whitespace(
    line: Seq<char>,
    checksum: Seq<char>,
    filename: Seq<char>,
) -> bool {
    &&& free_of_whitespace(checksum)
    &&& free_of_whitespace(line) ==> checksum == line && filename == Seq::<char>::empty()
    &&& !free_of_whitespace(line) ==> {
        let k = checksum.len() as int;
        &&& k < line.len()
        &&& is_whitespace(line[k])
        &&& checksum == line.take(k)
        &&& filename == line.skip(k + 1)
    }
}

/// Tells whether `c` is whitespace.
pub fn char_is_whitespace(c: char) -> (r: bool)
    ensures
        r == is_whitespace(c),
{
    let u = c as u32;
    (0x09 <= u && u <= 0x0d) || u == 0x20 || u == 0x85 || u == 0xa0 || u == 0x1680 || (0x2000
        <= u && u <= 0x200a) || u == 0x2028 || u == 0x2029 || u == 0x202f || u == 0x205f || u
        == 0x3000
}

/// One line of a checksum manifest: the expected checksum text and the name of
/// the file it belongs to. Either field may be empty.
pub struct ManifestRecord {
    pub checksum: String,
    pub filename: String,
}

/// Splits a manifest line at its first whitespace character.
///
/// The checksum field is everything before that character and the filename
/// field everything after it, kept verbatim, further whitespace included. A
/// line without whitespace is all checksum, with an empty filename. Parsing
/// never fails.
pub fn parse_manifest_line(line: &str) -> (r: ManifestRecord)
    ensures
        splits_at_first_whitespace(line@, r.checksum@, r.filename@),
{
    let n = line.unicode_len();
    let mut i: usize = 0;
    while i < n
        invariant
            i <= n,
            n == line@.len(),
            free_of_whitespace(line@.take(i as int)),
        decreases n - i,
    {
        let c = line.get_char(i);
        if char_is_whitespace(c) {
            let checksum = line.substring_char(0, i).to_owned();
            let filename = line.substring_char(i + 1, n).to_owned();
            assert(checksum@ =~= line@.take(i as int));
            assert(filename@ =~= line@.skip(i as int + 1));
            return ManifestRecord { checksum, filename };
        }
        assert(line@.take(i as int + 1) =~= line@.take(i as int).push(c));
        i = i + 1;
    }
    assert(line@.take(i as int) =~= line@);
    ManifestRecord { checksum: line.to_owned(), filename: String::new() }
}

} // verus!
