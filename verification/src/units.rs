use vstd::prelude::*;

verus! {

/// Fixed-point subunits per world unit of position. A particle at world
/// coordinate 1.0 is stored as `POS_SCALE` subunits.
pub const POS_SCALE: i64 = 1_000_000;

/// Fixed-point subunits per world unit of squared distance: distances from
/// the origin are compared squared, so thresholds are stored in units of
/// `POS_SCALE * POS_SCALE`.
pub const POS_SQ: i64 = 1_000_000_000_000;

/// Fixed-point subunits per world unit of speed: a velocity of 1.5 world
/// units is stored as 3.
pub const VEL_SCALE: i64 = 2;

/// The motion rule advances a particle by `direction * velocity / STEP_DIV`
/// world units per tick, where `direction` is a unit vector.
pub const STEP_DIV: i64 = 100;

/// Fixed-point subunits per unit of a direction component, chosen as
/// `POS_SCALE / (STEP_DIV * VEL_SCALE)` so that the product of a direction
/// component (at most one unit long) and a velocity is directly the
/// per-tick displacement in position subunits, with no division left over.
pub const DIR_SCALE: i64 = 5_000;

/// Largest admitted velocity, in `VEL_SCALE` subunits (512 world units of
/// speed), far above anything the spawner hands out.
pub const VEL_MAX: i64 = 1_024;

/// Largest admitted base recycling threshold: 16 squared world units, in
/// `POS_SQ` subunits.
pub const THRESH_BASE_MAX: i64 = 16_000_000_000_000;

/// Largest admitted number of randomized enlargements of the threshold:
/// each tick may add up to `SPREAD_MAX - 1` squared world units to the
/// base.
pub const SPREAD_MAX: u64 = 16;

/// Cap on any threshold a configuration can draw: 32 squared world units,
/// in `POS_SQ` subunits. Keeping every threshold under this cap bounds
/// every particle position, which keeps the whole motion rule inside
/// `i64`.
pub const THRESH_CAP: i64 = 32_000_000_000_000;

} // verus!
