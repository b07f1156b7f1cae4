//! The moving entity and the tick accumulator that converts a
//! per-tick speed into discrete one-cell displacements.

use vstd::prelude::*;
use crate::heading::Heading;
use crate::heading::KeySet;
use crate::heading::resolve;
use crate::heading::resolve_spec;
use crate::lattice::CELL_SIZE;
use crate::lattice::in_field;
use crate::lattice::lattice_aligned;
use crate::lattice::sample;
use crate::lattice::sample_of;
use crate::lattice::sample_random;

verus! {

/// Number of accumulated speed units that buys one cell of movement.
pub const THRESHOLD: i32 = 10;

/// Horizontal displacement, in world units, of one movement step
/// taken while travelling along `h`.
pub open spec fn dx_of(h: Heading) -> int {
    match h {
        Heading::Left => -(CELL_SIZE as int),
        Heading::Right => CELL_SIZE as int,
        _ => 0,
    }
}

/// Vertical displacement, in world units, of one movement step taken
/// while travelling along `h`.
pub open spec fn dy_of(h: Heading) -> int {
    match h {
        Heading::Up => CELL_SIZE as int,
        Heading::Down => -(CELL_SIZE as int),
        _ => 0,
    }
}

/// The single grid-bound entity the ticks drive around the field.
///
/// Exactly one instance exists; it is created once at startup and
/// mutated every tick, and the system has no terminal state.
#[derive(Clone, Copy, PartialEq, Eq, Structural, Debug)]
pub struct MovingEntity {
    /// Horizontal position, always on the lattice.
    pub pos_x: i32,
    /// Vertical position, always on the lattice.
    pub pos_y: i32,
    /// Current direction of travel.
    pub heading: Heading,
    /// Speed units gained per tick.
    pub speed: i32,
    /// Speed units accumulated so far, always in `[0, THRESHOLD)`.
    pub accumulator: i32,
}

impl MovingEntity {
    /// The entity's invariant: the position sits on the lattice, the
    /// accumulator stays below the threshold, and the speed is a
    /// positive value no larger than the threshold, which is what
    /// makes "at most one displacement per tick" sound.
    pub open spec fn well_formed(self) -> bool {
        &&& 1 <= self.speed
        &&& self.speed <= THRESHOLD
        &&& 0 <= self.accumulator
        &&& self.accumulator < THRESHOLD
        &&& lattice_aligned(self.pos_x as int)
        &&& lattice_aligned(self.pos_y as int)
    }

    /// Builds the entity at the lattice position the two draws snap
    /// to, travelling upward, with speed one and an empty
    /// accumulator.
    pub fn spawn_at(draw_x: u32, draw_y: u32) -> (e: MovingEntity)
        ensures
            e.pos_x as int == sample_of(draw_x),
            e.pos_y as int == sample_of(draw_y),
            e.heading == Heading::Up,
            e.speed == 1,
            e.accumulator == 0,
            e.well_formed(),
            in_field(e.pos_x as int),
            in_field(e.pos_y as int),
    {
        MovingEntity {
            pos_x: sample(draw_x),
            pos_y: sample(draw_y),
            heading: Heading::Up,
            speed: 1,
            accumulator: 0,
        }
    }

    /// Builds the entity at a freshly drawn random lattice position
    /// inside the play field, travelling upward, with speed one and
    /// an empty accumulator.
    pub fn spawn() -> (e: MovingEntity)
        ensures
            e.heading == Heading::Up,
            e.speed == 1,
            e.accumulator == 0,
            e.well_formed(),
            in_field(e.pos_x as int),
            in_field(e.pos_y as int),
    {
        MovingEntity {
            pos_x: sample_random(),
            pos_y: sample_random(),
            heading: Heading::Up,
            speed: 1,
            accumulator: 0,
        }
    }

    /// Adds one tick's worth of speed to the accumulator and, once
    /// the threshold is crossed, applies exactly one cell of
    /// displacement along the current heading and carries the
    /// remainder over.
    ///
    /// Subtracting the threshold rather than resetting to zero keeps
    /// the remainder, so speeds that do not divide the threshold
    /// still reach their long-run average rate.
    pub fn advance(&mut self)
        requires
            old(self).well_formed(),
            i32::MIN + CELL_SIZE <= old(self).pos_x,
            old(self).pos_x <= i32::MAX - CELL_SIZE,
            i32::MIN + CELL_SIZE <= old(self).pos_y,
            old(self).pos_y <= i32::MAX - CELL_SIZE,
        ensures
            final(self).well_formed(),
            final(self).heading == old(self).heading,
            final(self).speed == old(self).speed,
            old(self).accumulator + old(self).speed >= THRESHOLD ==> {
                &&& final(self).accumulator == old(self).accumulator + old(self).speed
                    - THRESHOLD
                &&& final(self).pos_x == old(self).pos_x + dx_of(old(self).heading)
                &&& final(self).pos_y == old(self).pos_y + dy_of(old(self).heading)
            },
            old(self).accumulator + old(self).speed < THRESHOLD ==> {
                &&& final(self).accumulator == old(self).accumulator + old(self).speed
                &&& final(self).pos_x == old(self).pos_x
                &&& final(self).pos_y == old(self).pos_y
            },
    {
        self.accumulator = self.accumulator + self.speed;
        if self.accumulator >= THRESHOLD {
            match self.heading {
                Heading::Up => self.pos_y = self.pos_y + CELL_SIZE,
                Heading::Down => self.pos_y = self.pos_y - CELL_SIZE,
                Heading::Left => self.pos_x = self.pos_x - CELL_SIZE,
                Heading::Right => self.pos_x = self.pos_x + CELL_SIZE,
            }
            self.accumulator = self.accumulator - THRESHOLD;
        }
    }

    /// One full movement tick: the arbiter resolves the next heading
    /// from the held keys, then the accumulator advances and, past
    /// the threshold, moves the entity one cell along the resolved
    /// heading.
    pub fn tick(&mut self, keys: KeySet)
        requires
            old(self).well_formed(),
            i32::MIN + CELL_SIZE <= old(self).pos_x,
            old(self).pos_x <= i32::MAX - CELL_SIZE,
            i32::MIN + CELL_SIZE <= old(self).pos_y,
            old(self).pos_y <= i32::MAX - CELL_SIZE,
        ensures
            final(self).well_formed(),
            final(self).heading == resolve_spec(keys, old(self).heading),
            final(self).speed == old(self).speed,
            old(self).accumulator + old(self).speed >= THRESHOLD ==> {
                &&& final(self).accumulator == old(self).accumulator + old(self).speed
                    - THRESHOLD
                &&& final(self).pos_x == old(self).pos_x
                    + dx_of(resolve_spec(keys, old(self).heading))
                &&& final(self).pos_y == old(self).pos_y
                    + dy_of(resolve_spec(keys, old(self).heading))
            },
            old(self).accumulator + old(self).speed < THRESHOLD ==> {
                &&& final(self).accumulator == old(self).accumulator + old(self).speed
                &&& final(self).pos_x == old(self).pos_x
                &&& final(self).pos_y == old(self).pos_y
            },
    {
        self.heading = resolve(keys, self.heading);
        self.advance();
    }
}

} // verus!
