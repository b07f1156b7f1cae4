//! The per-tick spawner that records one new secondary entity at a
//! freshly sampled lattice coordinate.

use vstd::prelude::*;
use crate::lattice::in_field;
use crate::lattice::lattice_aligned;
use crate::lattice::sample;
use crate::lattice::sample_of;
use crate::lattice::sample_random;

verus! {

/// An entity with no identity beyond its spatial location.
///
/// Secondary entities are created once per tick and never destroyed
/// or deduplicated: they accumulate without bound for the lifetime of
/// the process, which is a reproduced characteristic of the system,
/// not an oversight to be repaired here.
#[derive(Clone, Copy, PartialEq, Eq, Structural, Debug)]
pub struct SecondaryEntity {
    /// Horizontal position, always on the lattice.
    pub pos_x: i32,
    /// Vertical position, always on the lattice.
    pub pos_y: i32,
}

impl SecondaryEntity {
    /// Both coordinates sit on the lattice and inside the play
    /// field.
    pub open spec fn on_lattice(self) -> bool {
        &&& lattice_aligned(self.pos_x as int)
        &&& lattice_aligned(self.pos_y as int)
        &&& in_field(self.pos_x as int)
        &&& in_field(self.pos_y as int)
    }
}

/// Creates one secondary entity per tick and keeps the record of all
/// of them, in creation order.
pub struct SpawnDriver {
    /// Every secondary entity created so far, oldest first.
    pub entities: Vec<SecondaryEntity>,
}

impl SpawnDriver {
    /// Every recorded entity sits on the lattice inside the play
    /// field.
    pub open spec fn well_formed(self) -> bool {
        forall|i: int|
            0 <= i < self.entities@.len() ==> self.entities@[i].on_lattice()
    }

    /// A driver that has spawned nothing yet.
    pub fn new() -> (d: SpawnDriver)
        ensures
            d.entities@.len() == 0,
            d.well_formed(),
    {
        SpawnDriver { entities: Vec::new() }
    }

    /// Records the one secondary entity that the two given draws
    /// place: its position is exactly where the draws snap to, and
    /// every earlier entity is kept unchanged.
    pub fn on_tick_with(&mut self, draw_x: u32, draw_y: u32)
        ensures
            final(self).entities@ == old(self).entities@.push(
                (SecondaryEntity {
                    pos_x: sample_of(draw_x) as i32,
                    pos_y: sample_of(draw_y) as i32,
                }),
            ),
            old(self).well_formed() ==> final(self).well_formed(),
    {
        let entity = SecondaryEntity { pos_x: sample(draw_x), pos_y: sample(draw_y) };
        self.entities.push(entity);
        proof {
            assert forall|i: int|
                old(self).well_formed() && 0 <= i < self.entities@.len() implies self
                .entities@[i].on_lattice() by {
                if i < old(self).entities@.len() {
                    assert(self.entities@[i] == old(self).entities@[i]);
                }
            }
        }
    }

    /// Draws a fresh random lattice coordinate and records one new
    /// secondary entity there. Each call adds exactly one entity, on
    /// the lattice and inside the play field; nothing requires two
    /// calls to pick distinct positions, so duplicates can pile up.
    pub fn on_tick(&mut self)
        requires
            old(self).well_formed(),
        ensures
            final(self).well_formed(),
            final(self).entities@.len() == old(self).entities@.len() + 1,
            final(self).entities@.subrange(0, old(self).entities@.len() as int)
                =~= old(self).entities@,
            final(self).entities@.last().on_lattice(),
    {
        let entity = SecondaryEntity { pos_x: sample_random(), pos_y: sample_random() };
        self.entities.push(entity);
        proof {
            assert forall|i: int| 0 <= i < self.entities@.len() implies self
                .entities@[i].on_lattice() by {
                if i < old(self).entities@.len() {
                    assert(self.entities@[i] == old(self).entities@[i]);
                }
            }
        }
    }

    /// How many secondary entities have been spawned so far.
    pub fn count(&self) -> (n: usize)
        ensures
            n == self.entities@.len(),
    {
        self.entities.len()
    }
}

} // verus!
