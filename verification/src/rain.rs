//! The animated "digital rain" background: which glyph falls where. The motion
//! itself is drawn by the frontend; everything here is a function of the column,
//! the stream, the row and the time step, with no state to keep.

use vstd::prelude::*;

verus! {

/// Font-safe glyphs (rendered by the default font).
pub const GLYPHS: [char; 32] = [
    '0', '1', '0', '1', '2', '3', '4', '5', '6', '7', '8', '9', 'A', 'B', 'C', 'D', 'E', 'F', '<',
    '>', '/', '\\', '=', '+', '*', '#', '$', '%', '@', '?', ':', ';',
];

/// Three xor-shift rounds and a multiplication modulo 2^32.
pub open spec fn hashed(x: u32) -> u32 {
    let a = x ^ (x << 13u32);
    let b = a ^ (a >> 17u32);
    let c = b ^ (b << 5u32);
    ((c * 0x9e3779b1) % 0x1_0000_0000) as u32
}

/// Cheap deterministic hash for stable per-column randomness.
pub fn hash(x: u32) -> (r: u32)
    ensures
        r == hashed(x),
{
    let a: u32 = x ^ (x << 13u32);
    let b: u32 = a ^ (a >> 17u32);
    let c: u32 = b ^ (b << 5u32);
    c.wrapping_mul(0x9e3779b1)
}

/// The number that picks a cell's glyph: it mixes stream, row and time step,
/// modulo 2^32.
pub open spec fn cell_key(seed: u32, row: u32, flip: u32) -> u32 {
    ((seed * 31 + row + flip) % 0x1_0000_0000) as u32
}

/// Picks a glyph for a cell; `flip` counts thirds of a second, so that streams
/// shimmer slowly.
pub fn glyph(seed: u32, row: u32, flip: u32) -> (r: char)
    ensures
        r == GLYPHS@[(hashed(cell_key(seed, row, flip)) % 32) as int],
{
    let key: u32 = seed.wrapping_mul(31).wrapping_add(row).wrapping_add(flip);
    proof {
        let m = 0x1_0000_0000int;
        let a = (seed * 31) % m;
        assert(((a + row) % m + flip) % m == (seed * 31 + row + flip) % m) by {
            vstd::arithmetic::div_mod::lemma_add_mod_noop(a + row, flip as int, m);
            vstd::arithmetic::div_mod::lemma_add_mod_noop(seed * 31, row as int, m);
            vstd::arithmetic::div_mod::lemma_add_mod_noop(seed * 31 + row, flip as int, m);
        }
    }
    let idx: usize = hash(key) as usize % 32;
    GLYPHS[idx]
}

/// One of the two staggered streams of a column.
#[derive(Debug, Clone, Copy, PartialEq, Eq, Structural)]
pub struct Stream {
    pub seed: u32,
    /// Its speed is 3 cells per second plus an eleventh of this.
    pub speed_step: u32,
    /// How many cells it spans.
    pub trail_len: usize,
    /// Where it starts, in 997ths of its way.
    pub phase_step: u32,
}

/// The stream's parameters, stable over time.
pub open spec fn stream_of(seed: u32) -> Stream {
    Stream {
        seed,
        speed_step: hashed(seed) % 90,
        trail_len: (7 + hashed(seed ^ 0x5bd1) % 16) as usize,
        phase_step: hashed(seed ^ 0x9e37) % 997,
    }
}

/// Stream `which` of column `col`.
pub fn stream(col: u32, which: u32) -> (r: Stream)
    requires
        which < 2,
        col <= 0x7fff_ffff,
    ensures
        r == stream_of((col * 2 + which) as u32),
        7 <= r.trail_len <= 22 && r.speed_step < 90 && r.phase_step < 997,
{
    let seed: u32 = col * 2 + which;
    Stream {
        seed,
        speed_step: hash(seed) % 90,
        trail_len: 7 + (hash(seed ^ 0x5bd1) % 16) as usize,
        phase_step: hash(seed ^ 0x9e37) % 997,
    }
}

/// No two streams share a seed.
pub proof fn streams_are_distinct(col: u32, stream: u32, other_col: u32, other_stream: u32)
    requires
        stream < 2,
        other_stream < 2,
        col <= 0x7fff_ffff,
        other_col <= 0x7fff_ffff,
        col != other_col || stream != other_stream,
    ensures
        stream_of((col * 2 + stream) as u32).seed != stream_of(
            (other_col * 2 + other_stream) as u32,
        ).seed,
{
}

// ---------------------------------------------------------------------------
// Laws

/// A glyph moves down with time: what a cell shows next, the cell below shows now. Cells
/// one row apart are picked for differently.
pub proof fn glyphs_move_with_time(seed: u32, row: u32, flip: u32)
    requires
        row < u32::MAX,
        flip < u32::MAX,
    ensures
        cell_key(seed, row, (flip + 1) as u32) == cell_key(seed, (row + 1) as u32, flip),
        cell_key(seed, (row + 1) as u32, flip) == (cell_key(seed, row, flip) + 1) % 0x1_0000_0000,
        cell_key(0, row, 0) == row,
{
    let m = 0x1_0000_0000int;
    vstd::arithmetic::div_mod::lemma_add_mod_noop(seed * 31 + row + flip, 1, m);
}

/// Every stream has cells to span, a pace and a start within its way.
pub proof fn streams_keep_within_bounds(seed: u32)
    ensures
        7 <= stream_of(seed).trail_len <= 22,
        stream_of(seed).speed_step < 90,
        stream_of(seed).phase_step < 997,
        stream_of(seed).seed == seed,
{
}

/// No two numbers hash alike, so neither do any two streams.
pub proof fn no_two_numbers_hash_alike(x: u32, y: u32)
    requires
        hashed(x) == hashed(y),
    ensures
        x == y,
{
    let a = x ^ (x << 13u32);
    let b = a ^ (a >> 17u32);
    let c = b ^ (b << 5u32);
    let d = y ^ (y << 13u32);
    let e = d ^ (d >> 17u32);
    let f = e ^ (e << 5u32);
    lemma_multiplied_back(c);
    lemma_multiplied_back(f);
    assert(b == e) by (bit_vector)
        requires
            b ^ (b << 5u32) == e ^ (e << 5u32),
    ;
    assert(a == d) by (bit_vector)
        requires
            a ^ (a >> 17u32) == d ^ (d >> 17u32),
    ;
    assert(x == y) by (bit_vector)
        requires
            x ^ (x << 13u32) == y ^ (y << 13u32),
    ;
}

/// The multiplication of the hash is undone by another one.
proof fn lemma_multiplied_back(c: u32)
    ensures
        ((((c * 0x9e3779b1) % 0x1_0000_0000) as u32) * 0xe8b2f51) % 0x1_0000_0000 == c,
{
    let m = 0x1_0000_0000int;
    let k = 0x9e3779b1int;
    let back = 0xe8b2f51int;
    let whole = c * k;
    vstd::arithmetic::div_mod::lemma_mul_mod_noop_left(whole, back, m);
    assert(k * back == 1 + 150801925 * m);
    assert(whole * back == c + (c * 150801925) * m) by (nonlinear_arith)
        requires
            whole == c * k,
            k * back == 1 + 150801925 * m,
    ;
    vstd::arithmetic::div_mod::lemma_mod_multiples_vanish(c * 150801925, c as int, m);
    vstd::arithmetic::div_mod::lemma_small_mod(c as nat, m as nat);
}

} // verus!
