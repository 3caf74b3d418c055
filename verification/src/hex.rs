//! Lower-case hexadecimal text for the diagnostics the servers write to
//! stderr: a 32-bit code as eight digits, and a byte dump sixteen bytes to
//! a line.
use vstd::prelude::*;

verus! {

/// ASCII code of the lower-case hex digit of `n` (`0`..`9`, then `a`..`f`).
pub open spec fn hex_digit(n: int) -> u8 {
    if n < 10 {
        (0x30 + n) as u8
    } else {
        (0x61 + (n - 10)) as u8
    }
}

/// Nibble `k` of `x`, counting from the most significant (`k == 0`) to the
/// least significant (`k == 7`).
pub open spec fn nibble(x: u32, k: int) -> int {
    ((x >> ((28 - 4 * k) as u32)) & 0xf) as int
}

/// The eight hex digits of `x`, most significant first, zero-padded.
pub open spec fn spec_hex_u32(x: u32) -> Seq<u8> {
    Seq::new(8, |k: int| hex_digit(nibble(x, k)))
}

/// One byte of a dump: its two hex digits and a space.
pub open spec fn hex_cell(b: u8) -> Seq<u8> {
    seq![hex_digit((b >> 4u8) as int), hex_digit((b & 0xf) as int), 0x20u8]
}

pub open spec fn hex_cells(bytes: Seq<u8>) -> Seq<u8>
    decreases bytes.len(),
{
    if bytes.len() == 0 {
        Seq::empty()
    } else {
        hex_cells(bytes.drop_last()) + hex_cell(bytes.last())
    }
}

/// One line of a dump: a cell per byte, then a newline.
pub open spec fn spec_hex_line(bytes: Seq<u8>) -> Seq<u8> {
    hex_cells(bytes).push(0x0au8)
}

/// A dump: one line per whole group of sixteen bytes, in order; a shorter
/// tail is not shown.
pub open spec fn spec_hex_dump(bytes: Seq<u8>) -> Seq<Seq<u8>> {
    Seq::new(bytes.len() / 16, |r: int| spec_hex_line(bytes.subrange(16 * r, 16 * r + 16)))
}

/// The byte strings held by a vector of lines.
pub open spec fn lines_view(v: Seq<Vec<u8>>) -> Seq<Seq<u8>> {
    v.map_values(|l: Vec<u8>| l@)
}

fn hex_char(n: u8) -> (c: u8)
    requires
        n < 16,
    ensures
        c == hex_digit(n as int),
{
    if n < 10 {
        0x30 + n
    } else {
        0x61 + (n - 10)
    }
}

/// The eight hex digits of `x`, most significant first.
pub fn hex_u32(x: u32) -> (r: Vec<u8>)
    ensures
        r@ == spec_hex_u32(x),
{
    let mut r: Vec<u8> = Vec::new();
    let mut k: u32 = 0;
    while k < 8
        invariant
            k <= 8,
            r@ =~= spec_hex_u32(x).take(k as int),
        decreases 8 - k,
    {
        let shift: u32 = 28 - 4 * k;
        let n: u32 = (x >> shift) & 0xf;
        assert((x >> shift) & 0xf < 16) by (bit_vector);
        assert(n as int == nibble(x, k as int));
        r.push(hex_char(n as u8));
        k = k + 1;
    }
    r
}

/// The dump line of `bytes[start..end]`.
pub fn hex_line(bytes: &[u8], start: usize, end: usize) -> (r: Vec<u8>)
    requires
        start <= end <= bytes@.len(),
    ensures
        r@ == spec_hex_line(bytes@.subrange(start as int, end as int)),
{
    let mut r: Vec<u8> = Vec::new();
    let mut j: usize = start;
    while j < end
        invariant
            start <= j <= end <= bytes@.len(),
            r@ == hex_cells(bytes@.subrange(start as int, j as int)),
        decreases end - j,
    {
        let b = bytes[j];
        assert(b >> 4u8 < 16 && b & 0xf < 16) by (bit_vector);
        let ghost before = r@;
        r.push(hex_char(b >> 4u8));
        r.push(hex_char(b & 0xf));
        r.push(0x20);
        let ghost s = bytes@.subrange(start as int, j + 1);
        assert(s.drop_last() =~= bytes@.subrange(start as int, j as int));
        assert(s.last() == b);
        assert(r@ =~= before + hex_cell(b));
        j = j + 1;
    }
    r.push(0x0a);
    r
}

/// Dump `bytes` sixteen to a line; a tail shorter than sixteen is dropped.
pub fn hex_dump(bytes: &[u8]) -> (r: Vec<Vec<u8>>)
    ensures
        lines_view(r@) =~= spec_hex_dump(bytes@),
{
    let len: usize = bytes.len();
    let n: usize = len / 16;
    let mut rows: Vec<Vec<u8>> = Vec::new();
    let mut k: usize = 0;
    while k < n
        invariant
            k <= n,
            len == bytes@.len(),
            n == len / 16,
            lines_view(rows@) =~= spec_hex_dump(bytes@).take(k as int),
        decreases n - k,
    {
        assert(16 * k + 16 <= len) by (nonlinear_arith)
            requires
                k < n,
                n == len / 16,
        ;
        let line = hex_line(bytes, 16 * k, 16 * k + 16);
        let ghost before = lines_view(rows@);
        rows.push(line);
        proof {
            assert(lines_view(rows@) =~= before.push(line@));
            assert(spec_hex_dump(bytes@).take(k + 1) =~= spec_hex_dump(bytes@).take(k as int).push(
                spec_hex_dump(bytes@)[k as int],
            ));
        }
        k = k + 1;
    }
    assert(spec_hex_dump(bytes@).take(n as int) =~= spec_hex_dump(bytes@));
    rows
}

} // verus!
