use vstd::prelude::*;
use crate::motion::{Particle, Vec2};
use crate::palette::{color_from_index, in_palette, Color};
use crate::rng::rng_range;

verus! {

/// Colour of a freshly spawned particle: a palette index drawn uniformly
/// from 1 to 6, then looked up.
pub fn random_color(rng: &mut rand::rngs::StdRng) -> (c: Color)
    ensures
        in_palette(c),
{
    let k = rng_range(rng, 1, 7);
    color_from_index(k)
}

/// Velocity of a freshly spawned particle, in `VEL_SCALE` subunits: half a
/// world unit plus one or two whole world units of speed, so 1.5 or 2.5
/// world units per motion step.
pub fn random_velocity(rng: &mut rand::rngs::StdRng) -> (v: i64)
    ensures
        v == 3 || v == 5,
{
    let k = rng_range(rng, 1, 3);
    1 + 2 * (k as i64)
}

/// Spawns `count` particles, every one at the origin with a random palette
/// colour, together with the parallel table of their velocities.
pub fn spawn_particles(count: usize, rng: &mut rand::rngs::StdRng) -> (out: (
    Vec<Particle>,
    Vec<i64>,
))
    ensures
        out.0.len() == count,
        out.1.len() == count,
        forall|i: int| 0 <= i < count ==> (#[trigger] out.0[i]).pos == (Vec2 { x: 0, y: 0 }),
        forall|i: int| 0 <= i < count ==> in_palette((#[trigger] out.0[i]).color),
        forall|i: int| 0 <= i < count ==> #[trigger] out.1[i] == 3 || out.1[i] == 5,
{
    let mut particles: Vec<Particle> = Vec::new();
    let mut velocities: Vec<i64> = Vec::new();
    let mut i: usize = 0;
    while i < count
        invariant
            i <= count,
            particles.len() == i,
            velocities.len() == i,
            forall|j: int| 0 <= j < i ==> (#[trigger] particles[j]).pos == (Vec2 { x: 0, y: 0 }),
            forall|j: int| 0 <= j < i ==> in_palette((#[trigger] particles[j]).color),
            forall|j: int| 0 <= j < i ==> #[trigger] velocities[j] == 3 || velocities[j] == 5,
        decreases count - i,
    {
        let color = random_color(rng);
        particles.push(Particle { pos: Vec2 { x: 0, y: 0 }, color });
        velocities.push(random_velocity(rng));
        i = i + 1;
    }
    (particles, velocities)
}

} // verus!
