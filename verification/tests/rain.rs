use mesh::rain::glyph;
use mesh::rain::hash;
use mesh::rain::stream;
use mesh::rain::GLYPHS;

fn reference_hash(x: u32) -> u32 {
    let mut x = x;
    x ^= x << 13;
    x ^= x >> 17;
    x ^= x << 5;
    x.wrapping_mul(0x9E37_79B1)
}

#[test]
fn the_hash_has_known_values() {
    assert_eq!(hash(0), 0);
    assert_eq!(hash(1), 270369u32.wrapping_mul(0x9E37_79B1));
    for x in [2u32, 77, 0x5bd1, 0x7fff_ffff, u32::MAX] {
        assert_eq!(hash(x), reference_hash(x));
    }
}

#[test]
fn a_glyph_depends_on_its_cell() {
    assert_eq!(glyph(0, 0, 0), GLYPHS[0]);
    let key = 5u32.wrapping_mul(31).wrapping_add(3).wrapping_add(9);
    assert_eq!(glyph(5, 3, 9), GLYPHS[reference_hash(key) as usize % 32]);
    let wrapped = u32::MAX.wrapping_mul(31).wrapping_add(u32::MAX).wrapping_add(2);
    assert_eq!(glyph(u32::MAX, u32::MAX, 2), GLYPHS[reference_hash(wrapped) as usize % 32]);
}

#[test]
fn streams_of_a_column_differ() {
    let a = stream(4, 0);
    let b = stream(4, 1);
    assert_eq!(a.seed, 8);
    assert_eq!(b.seed, 9);
    assert_eq!(a.speed_step, reference_hash(8) % 90);
    assert_eq!(a.trail_len, 7 + (reference_hash(8 ^ 0x5bd1) % 16) as usize);
    assert_eq!(a.phase_step, reference_hash(8 ^ 0x9e37) % 997);
    assert_ne!(stream(4, 1).seed, stream(5, 0).seed);
}
