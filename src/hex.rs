use vstd::prelude::*;

verus! {

/// The lowercase hexadecimal digit for a value below 16.
pub open spec fn hex_digit(d: u32) -> char {
    seq!['0', '1', '2', '3', '4', '5', '6', '7', '8', '9', 'a', 'b', 'c', 'd', 'e', 'f'][d as int]
}

/// The `k`-th group of four bits of `c`, counted from the least significant.
pub open spec fn nibble(c: u32, k: u32) -> u32 {
    (c >> ((4 * k) as u32)) & 15
}

/// The canonical text of a checksum: exactly eight lowercase hexadecimal
/// digits, most significant first, padded with zeros.
pub open spec fn hex8(c: u32) -> Seq<char> {
    Seq::new(8, |i: int| hex_digit(nibble(c, (7 - i) as u32)))
}

/// Writes a checksum as eight lowercase hexadecimal digits.
pub fn checksum_hex(c: u32) -> (r: String)
    ensures
        r@ == hex8(c),
{
    let digits = "0123456789abcdef";
    proof {
        reveal_strlit("0123456789abcdef");
    }
    let mut r = String::new();
    let mut i: u32 = 0;
    while i < 8
        invariant
            i <= 8,
            digits@ == seq!['0', '1', '2', '3', '4', '5', '6', '7', '8', '9', 'a', 'b', 'c', 'd', 'e', 'f'],
            r@ == hex8(c).take(i as int),
        decreases 8 - i,
    {
        let shift: u32 = 4 * (7 - i);
        let d: u32 = (c >> shift) & 15;
        assert(d < 16) by (bit_vector)
            requires
                d == (c >> shift) & 15,
        ;
        let one = digits.substring_char(d as usize, d as usize + 1);
        assert(one@ =~= seq![hex_digit(d)]);
        r.append(one);
        assert(r@ =~= hex8(c).take(i as int + 1));
        i = i + 1;
    }
    assert(r@ =~= hex8(c));
    r
}

/// Each digit names one value below 16.
proof fn lemma_hex_digit_injective(a: u32, b: u32)
    requires
        a < 16,
        b < 16,
        hex_digit(a) == hex_digit(b),
    ensures
        a == b,
{
    let t = seq!['0', '1', '2', '3', '4', '5', '6', '7', '8', '9', 'a', 'b', 'c', 'd', 'e', 'f'];
    assert(forall|i: int, j: int| 0 <= i < 16 && 0 <= j < 16 && i != j ==> t[i] != t[j]);
}

/// Distinct checksums have distinct texts.
pub proof fn lemma_hex8_injective(a: u32, b: u32)
    requires
        hex8(a) == hex8(b),
    ensures
        a == b,
{
    assert forall|k: u32| k < 8 implies nibble(a, k) == nibble(b, k) by {
        let i: int = 7 - k;
        assert(((7 - i) as u32) == k);
        assert(hex8(a)[i] == hex_digit(nibble(a, k)));
        assert(hex8(b)[i] == hex_digit(nibble(b, k)));
        let shift = (4 * k) as u32;
        let x = nibble(a, k);
        let y = nibble(b, k);
        assert(x < 16 && y < 16) by (bit_vector)
            requires
                x == (a >> shift) & 15,
                y == (b >> shift) & 15,
        ;
        lemma_hex_digit_injective(x, y);
    }
    let a0 = nibble(a, 0);
    let a1 = nibble(a, 1);
    let a2 = nibble(a, 2);
    let a3 = nibble(a, 3);
    let a4 = nibble(a, 4);
    let a5 = nibble(a, 5);
    let a6 = nibble(a, 6);
    let a7 = nibble(a, 7);
    assert(a == b) by (bit_vector)
        requires
            a0 == (a >> 0) & 15 && a0 == (b >> 0) & 15,
            a1 == (a >> 4) & 15 && a1 == (b >> 4) & 15,
            a2 == (a >> 8) & 15 && a2 == (b >> 8) & 15,
            a3 == (a >> 12) & 15 && a3 == (b >> 12) & 15,
            a4 == (a >> 16) & 15 && a4 == (b >> 16) & 15,
            a5 == (a >> 20) & 15 && a5 == (b >> 20) & 15,
            a6 == (a >> 24) & 15 && a6 == (b >> 24) & 15,
            a7 == (a >> 28) & 15 && a7 == (b >> 28) & 15,
    ;
}

} // verus!
