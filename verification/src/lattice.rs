//! Snapping a uniform random draw to a grid-aligned coordinate.
//!
//! The play field is a square of side 500 units centred on the
//! origin, divided into cells of 20 units. A coordinate is on the
//! lattice when it is an exact multiple of the cell size; the sampler
//! additionally keeps it within the field's half-extent.

use vstd::prelude::*;

verus! {

/// Side length of one grid cell, in world units.
pub const CELL_SIZE: i32 = 20;

/// Half the side length of the square play field, in world units.
pub const FIELD_HALF_EXTENT: i32 = 250;

/// Number of cell-sized steps across the whole field:
/// `2 * FIELD_HALF_EXTENT / CELL_SIZE`.
pub const FIELD_CELL_SPAN: u64 = 25;

/// Number of distinct values of a 32-bit draw, so that a draw `d`
/// stands for the real number `d / DRAW_SPAN` in `[0, 1)`.
pub const DRAW_SPAN: u64 = 0x1_0000_0000;

/// A coordinate sits on the lattice when it is an exact multiple of
/// the cell size.
pub open spec fn lattice_aligned(v: int) -> bool {
    v % (CELL_SIZE as int) == 0
}

/// A coordinate lies inside the play field when its magnitude is at
/// most the field's half-extent.
pub open spec fn in_field(v: int) -> bool {
    -(FIELD_HALF_EXTENT as int) <= v && v <= FIELD_HALF_EXTENT as int
}

/// The lattice coordinate that a 32-bit uniform draw `d` snaps to.
///
/// The draw stands for the real number `d / DRAW_SPAN` in `[0, 1)`.
/// It is scaled to `[-12.5, 12.5)`, twenty-five cell widths centred
/// on the origin, rounded to the nearest cell index with ties going
/// upward, and multiplied back by the cell size. Rounding the scaled
/// value `25 * d / DRAW_SPAN - 12.5` half-up is adding one half and
/// taking the floor, which is `25 * d / DRAW_SPAN` floored, minus 12;
/// taking ties upward keeps the result inside the half-extent.
pub open spec fn sample_of(draw: u32) -> int {
    (draw * (FIELD_CELL_SPAN as int) / (DRAW_SPAN as int) - 12) * (CELL_SIZE as int)
}

/// Every sampled coordinate is on the lattice and inside the play
/// field, whatever the draw.
pub proof fn lemma_sample_lattice(draw: u32)
    ensures
        lattice_aligned(sample_of(draw)),
        in_field(sample_of(draw)),
{
    assert(draw * (FIELD_CELL_SPAN as int) <= 25 * 0xffff_ffff) by (nonlinear_arith)
        requires
            draw <= 0xffff_ffffu32,
    ;
    assert(0 <= draw * (FIELD_CELL_SPAN as int) / (DRAW_SPAN as int) <= 24);
}

/// Snaps a 32-bit uniform draw to a lattice coordinate inside the
/// play field.
pub fn sample(draw: u32) -> (r: i32)
    ensures
        r as int == sample_of(draw),
        lattice_aligned(r as int),
        in_field(r as int),
{
    proof {
        lemma_sample_lattice(draw);
    }
    let scaled: u64 = (draw as u64) * FIELD_CELL_SPAN;
    let cell: u64 = scaled / DRAW_SPAN;
    (cell as i32 - 12) * CELL_SIZE
}

/// Relies on `rand::random`: a generic draw from the thread-local
/// generator; nothing is promised of a random value.
pub assume_specification<T>[ rand::random::<T> ]() -> (r: T)
    where
        rand::distributions::Standard: rand::distributions::Distribution<T>,
;

/// Draws one 32-bit value from the thread-local random generator and
/// snaps it to a lattice coordinate inside the play field.
pub fn sample_random() -> (r: i32)
    ensures
        lattice_aligned(r as int),
        in_field(r as int),
{
    let draw: u32 = rand::random::<u32>();
    sample(draw)
}

} // verus!
