//! Byte-level building blocks of the codec: big-endian integers, the
//! checksum, and reading and writing whole fields at an offset.

use crate::savefile::constants::ByteCoded;
use byteorder::BigEndian;
use byteorder::ByteOrder;
use vstd::prelude::*;
use vstd::slice::slice_subrange;

verus! {

/// The 16-bit integer written big-endian as `hi`, `lo`.
pub open spec fn be16(hi: u8, lo: u8) -> u16 {
    (hi as int * 0x100 + lo as int) as u16
}

/// The two bytes that hold `v`, most significant first.
pub open spec fn be16_bytes(v: u16) -> Seq<u8> {
    seq![(v / 0x100) as u8, (v % 0x100) as u8]
}

/// The 32-bit integer written big-endian as `b0`, `b1`, `b2`, `b3`.
pub open spec fn be32(b0: u8, b1: u8, b2: u8, b3: u8) -> u32 {
    (b0 as int * 0x100_0000 + b1 as int * 0x1_0000 + b2 as int * 0x100 + b3 as int) as u32
}

/// The four bytes that hold `v`, most significant first.
pub open spec fn be32_bytes(v: u32) -> Seq<u8> {
    seq![
        (v / 0x100_0000) as u8,
        (v / 0x1_0000 % 0x100) as u8,
        (v / 0x100 % 0x100) as u8,
        (v % 0x100) as u8,
    ]
}

/// The big-endian 16-bit integer that `bytes` holds at `at`.
pub open spec fn be16_at(bytes: Seq<u8>, at: int) -> u16 {
    be16(bytes[at], bytes[at + 1])
}

/// The big-endian 32-bit integer that `bytes` holds at `at`.
pub open spec fn be32_at(bytes: Seq<u8>, at: int) -> u32 {
    be32(bytes[at], bytes[at + 1], bytes[at + 2], bytes[at + 3])
}

/// The polynomial of the IEEE 802.3 CRC-32, lowest bit first.
pub const CRC32_POLYNOMIAL: u32 = 0xEDB8_8320;

/// The checksum register after one bit has left it: shifted down by one,
/// with the polynomial folded in where the bit that left was a one.
pub open spec fn crc32_shift(register: u32) -> u32 {
    if register & 1 == 1 {
        (register >> 1) ^ CRC32_POLYNOMIAL
    } else {
        register >> 1
    }
}

/// The checksum register after one more byte: the byte is folded into the
/// low end, and its eight bits leave one by one.
pub open spec fn crc32_byte(register: u32, byte: u8) -> u32 {
    crc32_shift(
        crc32_shift(
            crc32_shift(
                crc32_shift(
                    crc32_shift(crc32_shift(crc32_shift(crc32_shift(register ^ (byte as u32))))),
                ),
            ),
        ),
    )
}

/// The checksum register after all of `bytes`, from a register of ones.
pub open spec fn crc32_register(bytes: Seq<u8>) -> u32
    decreases bytes.len(),
{
    if bytes.len() == 0 {
        0xFFFF_FFFF
    } else {
        crc32_byte(crc32_register(bytes.drop_last()), bytes.last())
    }
}

/// The CRC-32 (IEEE 802.3) of a byte string: the register after all the
/// bytes, with every bit turned over.
pub open spec fn crc32_ieee(bytes: Seq<u8>) -> u32 {
    crc32_register(bytes) ^ 0xFFFF_FFFF
}

/// `base` with the bytes of `patch` laid over it from offset `at` on.
pub open spec fn overlay(base: Seq<u8>, at: int, patch: Seq<u8>) -> Seq<u8> {
    Seq::new(
        base.len(),
        |k: int|
            if at <= k < at + patch.len() {
                patch[k - at]
            } else {
                base[k]
            },
    )
}

/// Reading back what was written gives the integer again.
pub proof fn lemma_be16_of_bytes(v: u16)
    ensures
        be16_bytes(v).len() == 2,
        be16(be16_bytes(v)[0], be16_bytes(v)[1]) == v,
{
}

/// Writing what was read gives the two bytes again.
pub proof fn lemma_bytes_of_be16(hi: u8, lo: u8)
    ensures
        be16_bytes(be16(hi, lo)) == seq![hi, lo],
{
    assert(be16_bytes(be16(hi, lo)) =~= seq![hi, lo]);
}

/// Reading back what was written gives the integer again.
pub proof fn lemma_be32_of_bytes(v: u32)
    ensures
        be32_bytes(v).len() == 4,
        be32(be32_bytes(v)[0], be32_bytes(v)[1], be32_bytes(v)[2], be32_bytes(v)[3]) == v,
{
}

/// Writing what was read gives the four bytes again.
pub proof fn lemma_bytes_of_be32(b0: u8, b1: u8, b2: u8, b3: u8)
    ensures
        be32_bytes(be32(b0, b1, b2, b3)) == seq![b0, b1, b2, b3],
{
    let low: int = b2 as int * 0x100 + b3 as int;
    let mid: int = b1 as int * 0x1_0000 + low;
    let n: int = b0 as int * 0x100_0000 + mid;
    assert(0 <= low < 0x1_0000 && 0 <= mid < 0x100_0000 && 0 <= n < 0x1_0000_0000);
    assert(n / 0x100_0000 == b0 as int);
    assert(n / 0x1_0000 == b0 as int * 0x100 + b1 as int);
    assert(n / 0x100 == b0 as int * 0x1_0000 + b1 as int * 0x100 + b2 as int);
    assert(n % 0x100 == b3 as int);
    assert(be32(b0, b1, b2, b3) as int == n);
    assert(be32_bytes(be32(b0, b1, b2, b3)) =~= seq![b0, b1, b2, b3]);
}

/// One more byte moves the register on by one step of `crc32_byte`.
pub proof fn lemma_crc32_of_one_more_byte(bytes: Seq<u8>, byte: u8)
    ensures
        crc32_register(bytes.push(byte)) == crc32_byte(crc32_register(bytes), byte),
{
    assert(bytes.push(byte).drop_last() =~= bytes);
}

/// The checksum of no bytes at all is zero.
pub proof fn lemma_crc32_of_nothing()
    ensures
        crc32_ieee(Seq::<u8>::empty()) == 0,
{
    assert(0xFFFF_FFFFu32 ^ 0xFFFF_FFFFu32 == 0u32) by (bit_vector);
}

/// The checksum of the ASCII digits `123456789` is the check value by
/// which implementations of the CRC-32 are told apart: 0xCBF43926.
pub proof fn lemma_crc32_of_check_string()
    ensures
        crc32_ieee(seq![0x31u8, 0x32, 0x33, 0x34, 0x35, 0x36, 0x37, 0x38, 0x39]) == 0xCBF4_3926,
{
    let text: Seq<u8> = seq![0x31u8, 0x32, 0x33, 0x34, 0x35, 0x36, 0x37, 0x38, 0x39];
    assert(crc32_register(text.take(0)) == 0xFFFF_FFFF);
    assert(crc32_byte(0xFFFF_FFFFu32, 0x31u8) == 0x7C23_1048u32) by (bit_vector);
    lemma_crc32_of_one_more_byte(text.take(0), 0x31u8);
    assert(text.take(0).push(0x31u8) =~= text.take(1));
    assert(crc32_byte(0x7C23_1048u32, 0x32u8) == 0xB0AC_BB32u32) by (bit_vector);
    lemma_crc32_of_one_more_byte(text.take(1), 0x32u8);
    assert(text.take(1).push(0x32u8) =~= text.take(2));
    assert(crc32_byte(0xB0AC_BB32u32, 0x33u8) == 0x77B7_9C2Du32) by (bit_vector);
    lemma_crc32_of_one_more_byte(text.take(2), 0x33u8);
    assert(text.take(2).push(0x33u8) =~= text.take(3));
    assert(crc32_byte(0x77B7_9C2Du32, 0x34u8) == 0x641C_1F5Cu32) by (bit_vector);
    lemma_crc32_of_one_more_byte(text.take(3), 0x34u8);
    assert(text.take(3).push(0x34u8) =~= text.take(4));
    assert(crc32_byte(0x641C_1F5Cu32, 0x35u8) == 0x340A_C5E3u32) by (bit_vector);
    lemma_crc32_of_one_more_byte(text.take(4), 0x35u8);
    assert(text.take(4).push(0x35u8) =~= text.take(5));
    assert(crc32_byte(0x340A_C5E3u32, 0x36u8) == 0xF68D_2C9Eu32) by (bit_vector);
    lemma_crc32_of_one_more_byte(text.take(5), 0x36u8);
    assert(text.take(5).push(0x36u8) =~= text.take(6));
    assert(crc32_byte(0xF68D_2C9Eu32, 0x37u8) == 0xAFFC_9660u32) by (bit_vector);
    lemma_crc32_of_one_more_byte(text.take(6), 0x37u8);
    assert(text.take(6).push(0x37u8) =~= text.take(7));
    assert(crc32_byte(0xAFFC_9660u32, 0x38u8) == 0x651F_2550u32) by (bit_vector);
    lemma_crc32_of_one_more_byte(text.take(7), 0x38u8);
    assert(text.take(7).push(0x38u8) =~= text.take(8));
    assert(crc32_byte(0x651F_2550u32, 0x39u8) == 0x340B_C6D9u32) by (bit_vector);
    lemma_crc32_of_one_more_byte(text.take(8), 0x39u8);
    assert(text.take(8).push(0x39u8) =~= text.take(9));
    assert(text.take(9) =~= text);
    assert(0x340B_C6D9u32 ^ 0xFFFF_FFFFu32 == 0xCBF4_3926u32) by (bit_vector);
}

/// `byteorder::BigEndian::read_u16`: the integer held big-endian in the
/// first two bytes of `buf`. The call panics on a shorter buffer.
#[verifier::external_body]
fn read_u16_be(buf: &[u8]) -> (v: u16)
    requires
        buf@.len() >= 2,
    ensures
        v == be16(buf@[0], buf@[1]),
{
    BigEndian::read_u16(buf)
}

/// `byteorder::BigEndian::read_u32`: the integer held big-endian in the
/// first four bytes of `buf`. The call panics on a shorter buffer.
#[verifier::external_body]
fn read_u32_be(buf: &[u8]) -> (v: u32)
    requires
        buf@.len() >= 4,
    ensures
        v == be32(buf@[0], buf@[1], buf@[2], buf@[3]),
{
    BigEndian::read_u32(buf)
}

/// `byteorder::BigEndian::write_u16` on a buffer of two bytes: the buffer
/// then holds `v`, most significant byte first.
#[verifier::external_body]
fn write_u16_be(v: u16) -> (buf: [u8; 2])
    ensures
        buf@ == be16_bytes(v),
{
    let mut buf = [0u8; 2];
    BigEndian::write_u16(&mut buf, v);
    buf
}

/// `byteorder::BigEndian::write_u32` on a buffer of four bytes: the buffer
/// then holds `v`, most significant byte first.
#[verifier::external_body]
fn write_u32_be(v: u32) -> (buf: [u8; 4])
    ensures
        buf@ == be32_bytes(v),
{
    let mut buf = [0u8; 4];
    BigEndian::write_u32(&mut buf, v);
    buf
}

/// `crc32fast::hash`: the CRC-32 (IEEE) of the whole of `buf`, which is
/// what the crate says it computes on every path it may take.
#[verifier::external_body]
fn crc32_hash(buf: &[u8]) -> (crc: u32)
    ensures
        crc == crc32_ieee(buf@),
{
    crc32fast::hash(buf)
}

/// CRC-32 of exactly the bytes given. The caller leaves out what the
/// checksum does not cover.
pub fn checksum(bytes: &[u8]) -> (crc: u32)
    ensures
        crc == crc32_ieee(bytes@),
{
    crc32_hash(bytes)
}

/// CRC-32 of the bytes of `bytes` from `from` up to, not including, `to`.
pub fn checksum_of_range(bytes: &Vec<u8>, from: usize, to: usize) -> (crc: u32)
    requires
        from <= to <= bytes.len(),
    ensures
        crc == crc32_ieee(bytes@.subrange(from as int, to as int)),
{
    crc32_hash(slice_subrange(bytes.as_slice(), from, to))
}

/// A buffer of `len` zero bytes.
pub fn zeroed(len: usize) -> (out: Vec<u8>)
    ensures
        out@ == Seq::new(len as nat, |k: int| 0u8),
{
    let mut out: Vec<u8> = Vec::new();
    let mut k: usize = 0;
    while k < len
        invariant
            k <= len,
            out@.len() == k,
            forall|n: int| 0 <= n < k ==> out@[n] == 0,
        decreases len - k,
    {
        out.push(0);
        k += 1;
    }
    assert(out@ =~= Seq::new(len as nat, |k: int| 0u8));
    out
}

/// Reads the big-endian 16-bit integer at `at`.
pub fn get_u16_be(input: &[u8], at: usize) -> (v: u16)
    requires
        at + 2 <= input.len(),
    ensures
        v == be16_at(input@, at as int),
{
    read_u16_be(slice_subrange(input, at, at + 2))
}

/// Reads the big-endian 32-bit integer at `at`.
pub fn get_u32_be(input: &[u8], at: usize) -> (v: u32)
    requires
        at + 4 <= input.len(),
    ensures
        v == be32_at(input@, at as int),
{
    read_u32_be(slice_subrange(input, at, at + 4))
}

/// Writes one byte at `at` and leaves the rest as it was.
pub fn put_u8(out: &mut Vec<u8>, at: usize, v: u8)
    requires
        at < old(out).len(),
    ensures
        final(out)@ == overlay(old(out)@, at as int, seq![v]),
{
    out[at] = v;
    assert(out@ =~= overlay(old(out)@, at as int, seq![v]));
}

/// Writes `v` big-endian at `at` and leaves the rest as it was.
pub fn put_u16_be(out: &mut Vec<u8>, at: usize, v: u16)
    requires
        at + 2 <= old(out).len(),
    ensures
        final(out)@ == overlay(old(out)@, at as int, be16_bytes(v)),
{
    let buf = write_u16_be(v);
    out[at] = buf[0];
    out[at + 1] = buf[1];
    assert(out@ =~= overlay(old(out)@, at as int, be16_bytes(v)));
}

/// Writes `v` big-endian at `at` and leaves the rest as it was.
pub fn put_u32_be(out: &mut Vec<u8>, at: usize, v: u32)
    requires
        at + 4 <= old(out).len(),
    ensures
        final(out)@ == overlay(old(out)@, at as int, be32_bytes(v)),
{
    let buf = write_u32_be(v);
    out[at] = buf[0];
    out[at + 1] = buf[1];
    out[at + 2] = buf[2];
    out[at + 3] = buf[3];
    assert(out@ =~= overlay(old(out)@, at as int, be32_bytes(v)));
}

/// The bytes of a row of one-byte values, in index order.
pub open spec fn row_bytes<T: ByteCoded, const N: usize>(row: [T; N]) -> Seq<u8> {
    Seq::new(N as nat, |i: int| row[i].byte())
}

/// The bytes of a grid of one-byte values, row after row.
pub open spec fn grid_bytes<T: ByteCoded, const R: usize, const C: usize>(
    grid: [[T; C]; R],
) -> Seq<u8> {
    Seq::new((R * C) as nat, |k: int| grid[k / (C as int)][k % (C as int)].byte())
}

/// The bytes of a grid of big-endian 16-bit integers, row after row.
pub open spec fn u16_grid_bytes<const R: usize, const C: usize>(grid: [[u16; C]; R]) -> Seq<u8> {
    Seq::new(
        (2 * (R * C)) as nat,
        |k: int| be16_bytes(grid[k / 2 / (C as int)][k / 2 % (C as int)])[k % 2],
    )
}

/// The bytes of a grid of big-endian 32-bit integers, row after row.
pub open spec fn u32_grid_bytes<const R: usize, const C: usize>(grid: [[u32; C]; R]) -> Seq<u8> {
    Seq::new(
        (4 * (R * C)) as nat,
        |k: int| be32_bytes(grid[k / 4 / (C as int)][k / 4 % (C as int)])[k % 4],
    )
}

/// Each value of `row` is what the byte at its place, from `at` on, stands for.
pub open spec fn row_decodes<T: ByteCoded, const N: usize>(
    row: [T; N],
    bytes: Seq<u8>,
    at: int,
) -> bool {
    forall|i: int| 0 <= i < N ==> #[trigger] row[i] == T::of_byte(bytes[at + i])
}

/// Each value of `grid` is what the byte at `at + i * C + j` stands for.
pub open spec fn grid_decodes<T: ByteCoded, const R: usize, const C: usize>(
    grid: [[T; C]; R],
    bytes: Seq<u8>,
    at: int,
) -> bool {
    forall|i: int, j: int|
        0 <= i < R && 0 <= j < C ==> #[trigger] grid[i][j] == T::of_byte(bytes[at + i * C + j])
}

/// Each value of `grid` is the big-endian integer at `at + 2 * (i * C + j)`.
pub open spec fn u16_grid_decodes<const R: usize, const C: usize>(
    grid: [[u16; C]; R],
    bytes: Seq<u8>,
    at: int,
) -> bool {
    forall|i: int, j: int|
        0 <= i < R && 0 <= j < C ==> #[trigger] grid[i][j] == be16_at(bytes, at + 2 * (i * C + j))
}

/// Each value of `grid` is the big-endian integer at `at + 4 * (i * C + j)`.
pub open spec fn u32_grid_decodes<const R: usize, const C: usize>(
    grid: [[u32; C]; R],
    bytes: Seq<u8>,
    at: int,
) -> bool {
    forall|i: int, j: int|
        0 <= i < R && 0 <= j < C ==> #[trigger] grid[i][j] == be32_at(bytes, at + 4 * (i * C + j))
}

/// Place `i * cols + j` of a grid lies in row `i`, column `j`, and inside
/// the grid.
pub proof fn lemma_grid_place(i: int, j: int, rows: int, cols: int)
    requires
        0 <= i < rows,
        0 <= j < cols,
    ensures
        0 <= i * cols + j < rows * cols,
        (i * cols + j) / cols == i,
        (i * cols + j) % cols == j,
        (i + 1) * cols == i * cols + cols,
{
    assert(0 <= i * cols && (i + 1) * cols <= rows * cols && (i + 1) * cols == i * cols + cols)
        by (nonlinear_arith)
        requires
            0 <= i < rows,
            0 <= cols,
    ;
    vstd::arithmetic::div_mod::lemma_fundamental_div_mod_converse(i * cols + j, cols, i, j);
}

/// Place `k` of a grid lies in row `k / cols` and column `k % cols`, and
/// both are inside the grid.
pub proof fn lemma_grid_row_and_column(k: int, rows: int, cols: int)
    requires
        0 <= k < rows * cols,
        0 < cols,
    ensures
        0 <= k / cols < rows,
        0 <= k % cols < cols,
        (k / cols) * cols + k % cols == k,
{
    vstd::arithmetic::div_mod::lemma_fundamental_div_mod(k, cols);
    vstd::arithmetic::div_mod::lemma_mod_bound(k, cols);
    let i = k / cols;
    assert(i * cols == cols * i) by (nonlinear_arith);
    assert(0 <= i < rows) by (nonlinear_arith)
        requires
            i * cols <= k,
            k < i * cols + cols,
            0 <= k < rows * cols,
            0 < cols,
    ;
}

/// Reads `N` one-byte values from `at` on.
pub fn get_row<T: ByteCoded, const N: usize>(input: &[u8], at: usize) -> (row: [T; N])
    requires
        at + N <= input.len(),
    ensures
        row_decodes(row, input@, at as int),
{
    let mut row: [T; N] = [T::from_byte(0);N];
    let mut i: usize = 0;
    while i < N
        invariant
            i <= N,
            at + N <= input.len(),
            forall|n: int| 0 <= n < i ==> #[trigger] row[n] == T::of_byte(input@[at + n]),
        decreases N - i,
    {
        row[i] = T::from_byte(input[at + i]);
        i += 1;
    }
    row
}

/// Writes a row of one-byte values from `at` on and leaves the rest as it was.
pub fn put_row<T: ByteCoded, const N: usize>(out: &mut Vec<u8>, at: usize, row: &[T; N])
    requires
        at + N <= old(out).len(),
    ensures
        final(out)@ == overlay(old(out)@, at as int, row_bytes(*row)),
{
    let mut i: usize = 0;
    while i < N
        invariant
            i <= N,
            at + N <= out.len(),
            out.len() == old(out).len(),
            forall|k: int|
                0 <= k < out.len() ==> out@[k] == if at <= k < at + i {
                    row[k - at].byte()
                } else {
                    old(out)@[k]
                },
        decreases N - i,
    {
        out[at + i] = row[i].to_byte();
        i += 1;
    }
    assert(out@ =~= overlay(old(out)@, at as int, row_bytes(*row)));
}

/// Reads a grid of one-byte values, stored row after row from `at` on.
pub fn get_grid<T: ByteCoded, const R: usize, const C: usize>(input: &[u8], at: usize) -> (grid:
    [[T; C]; R])
    requires
        at + R * C <= input.len(),
    ensures
        grid_decodes(grid, input@, at as int),
{
    let mut grid: [[T; C]; R] = [[T::from_byte(0);C];R];
    let mut pos: usize = at;
    let mut i: usize = 0;
    while i < R
        invariant
            i <= R,
            at + R * C <= input.len(),
            pos == at + i * C,
            forall|a: int, b: int|
                0 <= a < i && 0 <= b < C ==> #[trigger] grid[a][b] == T::of_byte(
                    input@[at + a * C + b],
                ),
        decreases R - i,
    {
        let mut j: usize = 0;
        while j < C
            invariant
                i < R,
                j <= C,
                at + R * C <= input.len(),
                pos == at + i * C + j,
                forall|a: int, b: int|
                    0 <= a < i && 0 <= b < C ==> #[trigger] grid[a][b] == T::of_byte(
                        input@[at + a * C + b],
                    ),
                forall|b: int|
                    0 <= b < j ==> #[trigger] grid[i as int][b] == T::of_byte(
                        input@[at + i * C + b],
                    ),
            decreases C - j,
        {
            proof {
                lemma_grid_place(i as int, j as int, R as int, C as int);
            }
            grid[i][j] = T::from_byte(input[pos]);
            pos += 1;
            j += 1;
        }
        proof {
            if C > 0 {
                lemma_grid_place(i as int, 0, R as int, C as int);
            } else {
                assert((i + 1) * C == i * C + C) by (nonlinear_arith);
            }
        }
        i += 1;
    }
    grid
}

/// Writes a grid of one-byte values row after row from `at` on and leaves
/// the rest as it was.
pub fn put_grid<T: ByteCoded, const R: usize, const C: usize>(
    out: &mut Vec<u8>,
    at: usize,
    grid: &[[T; C]; R],
)
    requires
        at + R * C <= old(out).len(),
    ensures
        final(out)@ == overlay(old(out)@, at as int, grid_bytes(*grid)),
{
    let mut pos: usize = at;
    let mut i: usize = 0;
    while i < R
        invariant
            i <= R,
            at + R * C <= out.len(),
            out.len() == old(out).len(),
            pos == at + i * C,
            forall|k: int|
                0 <= k < out.len() ==> out@[k] == if at <= k < pos {
                    grid_bytes(*grid)[k - at]
                } else {
                    old(out)@[k]
                },
        decreases R - i,
    {
        let mut j: usize = 0;
        while j < C
            invariant
                i < R,
                j <= C,
                at + R * C <= out.len(),
                out.len() == old(out).len(),
                pos == at + i * C + j,
                forall|k: int|
                    0 <= k < out.len() ==> out@[k] == if at <= k < pos {
                        grid_bytes(*grid)[k - at]
                    } else {
                        old(out)@[k]
                    },
            decreases C - j,
        {
            proof {
                lemma_grid_place(i as int, j as int, R as int, C as int);
            }
            out[pos] = grid[i][j].to_byte();
            pos += 1;
            j += 1;
        }
        proof {
            if C > 0 {
                lemma_grid_place(i as int, 0, R as int, C as int);
            } else {
                assert((i + 1) * C == i * C + C) by (nonlinear_arith);
            }
        }
        i += 1;
    }
    assert(out@ =~= overlay(old(out)@, at as int, grid_bytes(*grid)));
}

/// Reads a grid of big-endian 16-bit integers, stored row after row from
/// `at` on.
pub fn get_u16_grid<const R: usize, const C: usize>(input: &[u8], at: usize) -> (grid:
    [[u16; C]; R])
    requires
        at + 2 * (R * C) <= input.len(),
    ensures
        u16_grid_decodes(grid, input@, at as int),
{
    let mut grid: [[u16; C]; R] = [[0u16;C];R];
    let mut pos: usize = at;
    let mut i: usize = 0;
    while i < R
        invariant
            i <= R,
            at + 2 * (R * C) <= input.len(),
            pos == at + 2 * (i * C),
            forall|a: int, b: int|
                0 <= a < i && 0 <= b < C ==> #[trigger] grid[a][b] == be16_at(
                    input@,
                    at + 2 * (a * C + b),
                ),
        decreases R - i,
    {
        let mut j: usize = 0;
        while j < C
            invariant
                i < R,
                j <= C,
                at + 2 * (R * C) <= input.len(),
                pos == at + 2 * (i * C + j),
                forall|a: int, b: int|
                    0 <= a < i && 0 <= b < C ==> #[trigger] grid[a][b] == be16_at(
                        input@,
                        at + 2 * (a * C + b),
                    ),
                forall|b: int|
                    0 <= b < j ==> #[trigger] grid[i as int][b] == be16_at(
                        input@,
                        at + 2 * (i * C + b),
                    ),
            decreases C - j,
        {
            proof {
                lemma_grid_place(i as int, j as int, R as int, C as int);
            }
            grid[i][j] = get_u16_be(input, pos);
            pos += 2;
            j += 1;
        }
        proof {
            if C > 0 {
                lemma_grid_place(i as int, 0, R as int, C as int);
            } else {
                assert((i + 1) * C == i * C + C) by (nonlinear_arith);
            }
        }
        i += 1;
    }
    grid
}

/// Writes a grid of big-endian 16-bit integers row after row from `at` on
/// and leaves the rest as it was.
pub fn put_u16_grid<const R: usize, const C: usize>(
    out: &mut Vec<u8>,
    at: usize,
    grid: &[[u16; C]; R],
)
    requires
        at + 2 * (R * C) <= old(out).len(),
    ensures
        final(out)@ == overlay(old(out)@, at as int, u16_grid_bytes(*grid)),
{
    let mut pos: usize = at;
    let mut i: usize = 0;
    while i < R
        invariant
            i <= R,
            at + 2 * (R * C) <= out.len(),
            out.len() == old(out).len(),
            pos == at + 2 * (i * C),
            forall|k: int|
                0 <= k < out.len() ==> out@[k] == if at <= k < pos {
                    u16_grid_bytes(*grid)[k - at]
                } else {
                    old(out)@[k]
                },
        decreases R - i,
    {
        let mut j: usize = 0;
        while j < C
            invariant
                i < R,
                j <= C,
                at + 2 * (R * C) <= out.len(),
                out.len() == old(out).len(),
                pos == at + 2 * (i * C + j),
                forall|k: int|
                    0 <= k < out.len() ==> out@[k] == if at <= k < pos {
                        u16_grid_bytes(*grid)[k - at]
                    } else {
                        old(out)@[k]
                    },
            decreases C - j,
        {
            proof {
                lemma_grid_place(i as int, j as int, R as int, C as int);
            }
            put_u16_be(out, pos, grid[i][j]);
            pos += 2;
            j += 1;
        }
        proof {
            if C > 0 {
                lemma_grid_place(i as int, 0, R as int, C as int);
            } else {
                assert((i + 1) * C == i * C + C) by (nonlinear_arith);
            }
        }
        i += 1;
    }
    assert(out@ =~= overlay(old(out)@, at as int, u16_grid_bytes(*grid)));
}

/// Reads a grid of big-endian 32-bit integers, stored row after row from
/// `at` on.
pub fn get_u32_grid<const R: usize, const C: usize>(input: &[u8], at: usize) -> (grid:
    [[u32; C]; R])
    requires
        at + 4 * (R * C) <= input.len(),
    ensures
        u32_grid_decodes(grid, input@, at as int),
{
    let mut grid: [[u32; C]; R] = [[0u32;C];R];
    let mut pos: usize = at;
    let mut i: usize = 0;
    while i < R
        invariant
            i <= R,
            at + 4 * (R * C) <= input.len(),
            pos == at + 4 * (i * C),
            forall|a: int, b: int|
                0 <= a < i && 0 <= b < C ==> #[trigger] grid[a][b] == be32_at(
                    input@,
                    at + 4 * (a * C + b),
                ),
        decreases R - i,
    {
        let mut j: usize = 0;
        while j < C
            invariant
                i < R,
                j <= C,
                at + 4 * (R * C) <= input.len(),
                pos == at + 4 * (i * C + j),
                forall|a: int, b: int|
                    0 <= a < i && 0 <= b < C ==> #[trigger] grid[a][b] == be32_at(
                        input@,
                        at + 4 * (a * C + b),
                    ),
                forall|b: int|
                    0 <= b < j ==> #[trigger] grid[i as int][b] == be32_at(
                        input@,
                        at + 4 * (i * C + b),
                    ),
            decreases C - j,
        {
            proof {
                lemma_grid_place(i as int, j as int, R as int, C as int);
            }
            grid[i][j] = get_u32_be(input, pos);
            pos += 4;
            j += 1;
        }
        proof {
            if C > 0 {
                lemma_grid_place(i as int, 0, R as int, C as int);
            } else {
                assert((i + 1) * C == i * C + C) by (nonlinear_arith);
            }
        }
        i += 1;
    }
    grid
}

/// Writes a grid of big-endian 32-bit integers row after row from `at` on
/// and leaves the rest as it was.
pub fn put_u32_grid<const R: usize, const C: usize>(
    out: &mut Vec<u8>,
    at: usize,
    grid: &[[u32; C]; R],
)
    requires
        at + 4 * (R * C) <= old(out).len(),
    ensures
        final(out)@ == overlay(old(out)@, at as int, u32_grid_bytes(*grid)),
{
    let mut pos: usize = at;
    let mut i: usize = 0;
    while i < R
        invariant
            i <= R,
            at + 4 * (R * C) <= out.len(),
            out.len() == old(out).len(),
            pos == at + 4 * (i * C),
            forall|k: int|
                0 <= k < out.len() ==> out@[k] == if at <= k < pos {
                    u32_grid_bytes(*grid)[k - at]
                } else {
                    old(out)@[k]
                },
        decreases R - i,
    {
        let mut j: usize = 0;
        while j < C
            invariant
                i < R,
                j <= C,
                at + 4 * (R * C) <= out.len(),
                out.len() == old(out).len(),
                pos == at + 4 * (i * C + j),
                forall|k: int|
                    0 <= k < out.len() ==> out@[k] == if at <= k < pos {
                        u32_grid_bytes(*grid)[k - at]
                    } else {
                        old(out)@[k]
                    },
            decreases C - j,
        {
            proof {
                lemma_grid_place(i as int, j as int, R as int, C as int);
            }
            put_u32_be(out, pos, grid[i][j]);
            pos += 4;
            j += 1;
        }
        proof {
            if C > 0 {
                lemma_grid_place(i as int, 0, R as int, C as int);
            } else {
                assert((i + 1) * C == i * C + C) by (nonlinear_arith);
            }
        }
        i += 1;
    }
    assert(out@ =~= overlay(old(out)@, at as int, u32_grid_bytes(*grid)));
}

} // verus!
