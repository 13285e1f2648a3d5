use vstd::prelude::*;
use crate::motion::{dist_sq, step_particle, tick_pos, valid_dir, Particle, Vec2};
use crate::palette::in_palette;
use crate::rng::rng_range;
use crate::spawn::spawn_particles;
use crate::swap::{spec_advance, SwapState};
use crate::units::{DIR_SCALE, POS_SQ, SPREAD_MAX, THRESH_BASE_MAX, THRESH_CAP, VEL_MAX};

verus! {

/// The tunable parameters of the animation: how many ticks pass between
/// two flips of the global sign, and the recycling threshold, given as a
/// base squared distance plus a per-tick randomized enlargement.
#[derive(Clone, Copy, PartialEq, Eq, Structural, Debug)]
pub struct Config {
    /// Ticks between two flips of the global sign.
    pub interval: u64,
    /// Base recycling threshold: a squared distance in `POS_SQ` subunits.
    pub threshold_base: i64,
    /// How many distinct enlargements the threshold can take: each tick
    /// draws a whole number of squared world units below this count and
    /// adds it to the base. One means the threshold is fixed.
    pub threshold_spread: u64,
}

impl Config {
    /// Admissible parameters: a positive flip interval, and a threshold
    /// range low enough that every drawable threshold stays under
    /// `THRESH_CAP`.
    pub open spec fn wf(self) -> bool {
        &&& 0 < self.interval
        &&& 0 <= self.threshold_base <= THRESH_BASE_MAX
        &&& 1 <= self.threshold_spread <= SPREAD_MAX
    }

    /// Whether the parameters are admissible.
    pub fn check(&self) -> (ok: bool)
        ensures
            ok == self.wf(),
    {
        0 < self.interval && 0 <= self.threshold_base && self.threshold_base <= THRESH_BASE_MAX
            && 1 <= self.threshold_spread && self.threshold_spread <= SPREAD_MAX
    }
}

/// The threshold obtained by enlarging the configured base by `k` squared
/// world units.
pub open spec fn threshold_option(cfg: Config, k: int) -> int {
    cfg.threshold_base + k * POS_SQ
}

/// Whether `t` is a threshold the configuration can draw on a tick.
pub open spec fn drawable_threshold(cfg: Config, t: int) -> bool {
    exists|k: int| 0 <= k < cfg.threshold_spread && t == #[trigger] threshold_option(cfg, k)
}

/// How one tick relates a particle to its former self: the colour is kept,
/// and the position is the motion rule's outcome under some threshold the
/// configuration can draw.
pub open spec fn ticked(
    cfg: Config,
    before: Particle,
    dir: Vec2,
    vel: int,
    sign: int,
    after: Particle,
) -> bool {
    &&& after.color == before.color
    &&& exists|t: int|
        #[trigger] drawable_threshold(cfg, t) && (after.pos.x as int, after.pos.y as int)
            == tick_pos(before.pos.x as int, before.pos.y as int, dir, vel, sign, t)
}

/// The whole animation state: the particle array, the parallel immutable
/// velocity table, the per-particle direction table, the sign-flip state
/// and the configuration.
pub struct World {
    pub particles: Vec<Particle>,
    pub velocities: Vec<i64>,
    pub dirs: Vec<Vec2>,
    pub swap: SwapState,
    pub config: Config,
}

impl World {
    /// The world's invariant: tables of equal length, every direction at
    /// most one unit long, every velocity in range, every position within
    /// the threshold cap, and an admissible configuration driving a
    /// well-formed swap state.
    pub open spec fn wf(self) -> bool {
        &&& self.config.wf()
        &&& self.swap.wf()
        &&& self.swap.interval == self.config.interval
        &&& self.velocities.len() == self.particles.len()
        &&& self.dirs.len() == self.particles.len()
        &&& forall|i: int| 0 <= i < self.particles.len() ==> valid_dir(#[trigger] self.dirs[i])
        &&& forall|i: int|
            0 <= i < self.particles.len() ==> 0 <= #[trigger] self.velocities[i] <= VEL_MAX
        &&& forall|i: int|
            0 <= i < self.particles.len() ==> dist_sq(
                (#[trigger] self.particles[i]).pos.x as int,
                self.particles[i].pos.y as int,
            ) <= THRESH_CAP
    }

    /// Builds the starting world: one particle per direction, every one at
    /// the origin with a random palette colour and a random velocity, the
    /// sign positive and the flip timer at zero. Returns `None` exactly
    /// when the configuration is inadmissible or some direction component
    /// is longer than one unit.
    pub fn new(config: Config, dirs: Vec<Vec2>, rng: &mut rand::rngs::StdRng) -> (w: Option<
        World,
    >)
        ensures
            w is Some <==> config.wf() && (forall|i: int|
                0 <= i < dirs.len() ==> valid_dir(#[trigger] dirs[i])),
            w matches Some(ww) ==> {
                &&& ww.wf()
                &&& ww.config == config
                &&& ww.dirs == dirs
                &&& ww.particles.len() == dirs.len()
                &&& ww.swap == (SwapState { sign: 1, ticks: 0, interval: config.interval })
                &&& forall|i: int|
                    0 <= i < dirs.len() ==> (#[trigger] ww.particles[i]).pos == (Vec2 {
                        x: 0,
                        y: 0,
                    })
                &&& forall|i: int|
                    0 <= i < dirs.len() ==> in_palette((#[trigger] ww.particles[i]).color)
                &&& forall|i: int|
                    0 <= i < dirs.len() ==> #[trigger] ww.velocities[i] == 3 || ww.velocities[i]
                        == 5
            },
    {
        if !config.check() {
            return None;
        }
        if !dirs_valid(&dirs) {
            return None;
        }
        let count = dirs.len();
        let (particles, velocities) = spawn_particles(count, rng);
        let swap = SwapState::new(config.interval);
        Some(World { particles, velocities, dirs, swap, config })
    }

    /// One animation tick: every particle advances along its direction,
    /// scaled by its velocity and the current global sign, and is recycled
    /// at a freshly drawn threshold; afterwards the flip timer counts the
    /// tick. The velocity, direction and configuration tables never
    /// change.
    pub fn tick(&mut self, rng: &mut rand::rngs::StdRng)
        requires
            old(self).wf(),
        ensures
            final(self).wf(),
            final(self).config == old(self).config,
            final(self).dirs == old(self).dirs,
            final(self).velocities == old(self).velocities,
            final(self).particles.len() == old(self).particles.len(),
            final(self).swap == spec_advance(old(self).swap),
            forall|i: int|
                0 <= i < old(self).particles.len() ==> ticked(
                    old(self).config,
                    #[trigger] old(self).particles[i],
                    old(self).dirs[i],
                    old(self).velocities[i] as int,
                    old(self).swap.sign as int,
                    final(self).particles[i],
                ),
    {
        let n = self.particles.len();
        let sign = self.swap.sign;
        let mut i: usize = 0;
        while i < n
            invariant
                i <= n,
                n == old(self).particles.len(),
                sign == old(self).swap.sign,
                old(self).wf(),
                self.config == old(self).config,
                self.dirs == old(self).dirs,
                self.velocities == old(self).velocities,
                self.swap == old(self).swap,
                self.particles.len() == n,
                forall|j: int| i <= j < n ==> self.particles[j] == old(self).particles[j],
                forall|j: int|
                    0 <= j < i ==> ticked(
                        old(self).config,
                        #[trigger] old(self).particles[j],
                        old(self).dirs[j],
                        old(self).velocities[j] as int,
                        old(self).swap.sign as int,
                        self.particles[j],
                    ),
                forall|j: int|
                    0 <= j < i ==> dist_sq(
                        (#[trigger] self.particles[j]).pos.x as int,
                        self.particles[j].pos.y as int,
                    ) <= THRESH_CAP,
            decreases n - i,
        {
            let k = rng_range(rng, 0, self.config.threshold_spread);
            let psq: i64 = POS_SQ;
            assert(psq == 1_000_000_000_000 && k <= 15);
            assert(0 <= (k as i64) * psq <= 15_000_000_000_000) by (nonlinear_arith)
                requires
                    0 <= k <= 15,
                    psq == 1_000_000_000_000,
            ;
            let threshold: i64 = self.config.threshold_base + (k as i64) * psq;
            assert(threshold as int == threshold_option(old(self).config, k as int));
            assert(drawable_threshold(old(self).config, threshold as int));
            let dir = self.dirs[i];
            let vel = self.velocities[i];
            let mut p = self.particles[i];
            step_particle(&mut p, dir, vel, sign, threshold);
            self.particles[i] = p;
            i = i + 1;
        }
        self.swap.advance();
    }
}

/// Whether every direction component is at most one unit long.
pub fn dirs_valid(dirs: &Vec<Vec2>) -> (ok: bool)
    ensures
        ok == forall|i: int| 0 <= i < dirs.len() ==> valid_dir(#[trigger] dirs[i]),
{
    let n = dirs.len();
    let mut i: usize = 0;
    let mut ok = true;
    while i < n
        invariant
            i <= n,
            n == dirs.len(),
            ok == forall|j: int| 0 <= j < i ==> valid_dir(#[trigger] dirs[j]),
        decreases n - i,
    {
        let d = dirs[i];
        let di_ok = -DIR_SCALE <= d.x && d.x <= DIR_SCALE && -DIR_SCALE <= d.y && d.y
            <= DIR_SCALE;
        assert(di_ok == valid_dir(d));
        ok = ok && di_ok;
        i = i + 1;
    }
    ok
}

} // verus!
