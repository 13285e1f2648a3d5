use particles::angle::particle_angle;
use particles::control::{loop_step, LoopAction, LoopEvent, LoopState};
use particles::motion::{step_particle, Particle, Vec2};
use particles::palette::Color;
use particles::quad::{make_quad, QuadVertex};
use particles::rng::seeded_rng;
use particles::spawn::{random_color, random_velocity};
use particles::swap::SwapState;
use particles::units::{DIR_SCALE, POS_SQ, THRESH_BASE_MAX};
use particles::world::{Config, World};

fn palette() -> Vec<Color> {
    vec![
        Color { r: 252, g: 215, b: 3, a: 255 },
        Color { r: 235, g: 64, b: 52, a: 255 },
        Color { r: 235, g: 198, b: 52, a: 255 },
        Color { r: 55, g: 235, b: 52, a: 255 },
        Color { r: 235, g: 52, b: 195, a: 255 },
        Color { r: 171, g: 52, b: 235, a: 255 },
    ]
}

fn demo_config() -> Config {
    Config { interval: 180, threshold_base: 2 * POS_SQ, threshold_spread: 5 }
}

#[test]
fn quad_has_six_expected_vertices() {
    let q = make_quad(20_000);
    assert_eq!(q.len(), 6);
    assert_eq!(q[0], QuadVertex { x: -20_000, y: 20_000, u: 0, v: 1 });
    assert_eq!(q[1], QuadVertex { x: 20_000, y: -20_000, u: 1, v: 0 });
    assert_eq!(q[2], QuadVertex { x: -20_000, y: -20_000, u: 0, v: 0 });
    assert_eq!(q[3], QuadVertex { x: -20_000, y: 20_000, u: 0, v: 1 });
    assert_eq!(q[4], QuadVertex { x: 20_000, y: -20_000, u: 1, v: 0 });
    assert_eq!(q[5], QuadVertex { x: 20_000, y: 20_000, u: 1, v: 1 });
}

#[test]
fn angles_are_uniform_fractions() {
    // Particle i out of N sits at exactly i/N of a full turn.
    let a = particle_angle(0, 6);
    assert_eq!((a.num, a.den), (0, 6));
    let b = particle_angle(3, 12);
    assert_eq!((b.num, b.den), (3, 12));
    // Cross-multiplied form, as the contract states it.
    assert_eq!(b.num as u128 * 12, 3u128 * b.den as u128);
    for i in 0..40 {
        let c = particle_angle(i, 40);
        assert!(c.num < c.den);
        assert_eq!(c.num as u128 * 40, i as u128 * c.den as u128);
    }
}

#[test]
fn sign_flips_exactly_at_interval() {
    let mut s = SwapState::new(5);
    for tick in 1..5u64 {
        s.advance();
        assert_eq!(s.sign, 1, "sign must not flip before the interval (tick {tick})");
        assert_eq!(s.ticks, tick);
    }
    s.advance();
    assert_eq!(s.sign, -1, "sign must flip once the interval elapses");
    assert_eq!(s.ticks, 0);
    for _ in 0..4 {
        s.advance();
        assert_eq!(s.sign, -1);
    }
    s.advance();
    assert_eq!(s.sign, 1, "sign must flip back after the next interval");
}

#[test]
fn step_advances_along_direction() {
    // One tick moves the particle by direction * velocity, additively.
    let color = Color { r: 9, g: 9, b: 9, a: 255 };
    let mut p = Particle { pos: Vec2 { x: 0, y: 0 }, color };
    let dir = Vec2 { x: 3_000, y: -4_000 };
    step_particle(&mut p, dir, 3, 1, 32 * POS_SQ);
    assert_eq!((p.pos.x, p.pos.y), (9_000, -12_000));
    assert_eq!(p.color, color);
    // A negative sign reverses the step exactly.
    step_particle(&mut p, dir, 3, -1, 32 * POS_SQ);
    assert_eq!((p.pos.x, p.pos.y), (0, 0));
}

#[test]
fn position_is_pure_function_of_ticks() {
    // With the trajectory inside the threshold, k ticks land exactly at
    // k times the per-tick displacement; zero ticks leave the position
    // exactly at its initial value.
    let initial = Vec2 { x: 123, y: -456 };
    let mut p = Particle { pos: initial, color: palette()[0] };
    assert_eq!(p.pos, initial);
    let dir = Vec2 { x: 5_000, y: 0 };
    for _ in 0..3 {
        step_particle(&mut p, dir, 2, 1, 32 * POS_SQ);
    }
    assert_eq!((p.pos.x, p.pos.y), (123 + 3 * 10_000, -456));
}

#[test]
fn recycling_exactly_at_threshold() {
    // The advanced point's squared distance is compared against the
    // threshold: one subunit under stays, one subunit over resets.
    let color = palette()[1];
    let dir = Vec2 { x: 5_000, y: 0 };
    // Advances to x = 10_000, squared distance 100_000_000.
    let mut stay = Particle { pos: Vec2 { x: 0, y: 0 }, color };
    step_particle(&mut stay, dir, 2, 1, 100_000_000);
    assert_eq!((stay.pos.x, stay.pos.y), (10_000, 0), "at the threshold no reset happens");
    let mut reset = Particle { pos: Vec2 { x: 0, y: 0 }, color };
    step_particle(&mut reset, dir, 2, 1, 99_999_999);
    assert_eq!((reset.pos.x, reset.pos.y), (0, 0), "over the threshold the particle recycles");
}

#[test]
fn world_rejects_bad_parameters() {
    let mut rng = seeded_rng(7);
    let dirs = vec![Vec2 { x: DIR_SCALE, y: 0 }];
    let no_interval = Config { interval: 0, ..demo_config() };
    assert!(World::new(no_interval, dirs.clone(), &mut rng).is_none());
    let no_spread = Config { threshold_spread: 0, ..demo_config() };
    assert!(World::new(no_spread, dirs.clone(), &mut rng).is_none());
    let base_too_big = Config { threshold_base: THRESH_BASE_MAX + 1, ..demo_config() };
    assert!(World::new(base_too_big, dirs.clone(), &mut rng).is_none());
    let long_dir = vec![Vec2 { x: DIR_SCALE + 1, y: 0 }];
    assert!(World::new(demo_config(), long_dir, &mut rng).is_none());
    assert!(World::new(demo_config(), dirs, &mut rng).is_some());
}

#[test]
fn spawn_draws_from_palette() {
    let mut rng = seeded_rng(11);
    let mut seen_vel = [false; 2];
    for _ in 0..200 {
        let c = random_color(&mut rng);
        assert!(palette().contains(&c), "spawned colour must come from the palette");
        let v = random_velocity(&mut rng);
        assert!(v == 3 || v == 5, "velocity must be 1.5 or 2.5 world units");
        seen_vel[((v - 3) / 2) as usize] = true;
    }
    assert!(seen_vel[0] && seen_vel[1], "both admissible velocities must occur");
}

#[test]
fn spawned_world_starts_at_origin() {
    let mut rng = seeded_rng(3);
    let dirs: Vec<Vec2> = (0..32).map(|_| Vec2 { x: 0, y: DIR_SCALE }).collect();
    let w = World::new(demo_config(), dirs, &mut rng).unwrap();
    assert_eq!(w.particles.len(), 32);
    assert_eq!(w.velocities.len(), 32);
    assert_eq!(w.swap.sign, 1);
    assert_eq!(w.swap.ticks, 0);
    for p in &w.particles {
        assert_eq!((p.pos.x, p.pos.y), (0, 0));
        assert!(palette().contains(&p.color));
    }
}

#[test]
fn same_seed_spawns_same_world() {
    let dirs: Vec<Vec2> = (0..64i64).map(|i| Vec2 { x: i * 10, y: -i * 10 }).collect();
    let mut rng_a = seeded_rng(99);
    let a = World::new(demo_config(), dirs.clone(), &mut rng_a).unwrap();
    let mut rng_b = seeded_rng(99);
    let b = World::new(demo_config(), dirs, &mut rng_b).unwrap();
    assert_eq!(a.particles, b.particles);
    assert_eq!(a.velocities, b.velocities);
}

#[test]
fn one_tick_end_to_end() {
    // Six particles; particle 0 looks along (cos 0, sin 0) == (1, 0).
    // Velocity one world unit, sign positive, fixed threshold: one tick
    // advances particle 0 by exactly the configured step, 1/100th of a
    // world unit, along the positive x axis — and the same holds again
    // for any fixed seed, since nothing random is left once the spread
    // is one.
    let dirs = vec![
        Vec2 { x: DIR_SCALE, y: 0 },
        Vec2 { x: 2_500, y: 4_330 },
        Vec2 { x: -2_500, y: 4_330 },
        Vec2 { x: -DIR_SCALE, y: 0 },
        Vec2 { x: -2_500, y: -4_330 },
        Vec2 { x: 2_500, y: -4_330 },
    ];
    let config = Config { interval: 180, threshold_base: 2 * POS_SQ, threshold_spread: 1 };
    let particles: Vec<Particle> = (0..6)
        .map(|_| Particle { pos: Vec2 { x: 0, y: 0 }, color: palette()[0] })
        .collect();
    let velocities = vec![2i64; 6];
    let mut w = World {
        particles,
        velocities,
        dirs,
        swap: SwapState::new(config.interval),
        config,
    };
    let mut rng = seeded_rng(0);
    w.tick(&mut rng);
    assert_eq!((w.particles[0].pos.x, w.particles[0].pos.y), (10_000, 0));
    assert_eq!((w.particles[3].pos.x, w.particles[3].pos.y), (-10_000, 0));
    assert_eq!(w.swap.ticks, 1);
    assert_eq!(w.swap.sign, 1);

    let mut rng2 = seeded_rng(123);
    let mut w2 = World {
        particles: (0..6)
            .map(|_| Particle { pos: Vec2 { x: 0, y: 0 }, color: palette()[0] })
            .collect(),
        velocities: vec![2i64; 6],
        dirs: vec![
            Vec2 { x: DIR_SCALE, y: 0 },
            Vec2 { x: 2_500, y: 4_330 },
            Vec2 { x: -2_500, y: 4_330 },
            Vec2 { x: -DIR_SCALE, y: 0 },
            Vec2 { x: -2_500, y: -4_330 },
            Vec2 { x: 2_500, y: -4_330 },
        ],
        swap: SwapState::new(config.interval),
        config,
    };
    w2.tick(&mut rng2);
    assert_eq!(w.particles, w2.particles);
}

#[test]
fn world_recycles_beyond_threshold() {
    // A threshold of zero sends every moving particle straight back to
    // the origin on the tick that moves it.
    let config = Config { interval: 10, threshold_base: 0, threshold_spread: 1 };
    let mut w = World {
        particles: vec![Particle { pos: Vec2 { x: 0, y: 0 }, color: palette()[2] }],
        velocities: vec![2i64],
        dirs: vec![Vec2 { x: DIR_SCALE, y: 0 }],
        swap: SwapState::new(config.interval),
        config,
    };
    let mut rng = seeded_rng(5);
    w.tick(&mut rng);
    assert_eq!((w.particles[0].pos.x, w.particles[0].pos.y), (0, 0));
}

#[test]
fn world_tick_flips_sign_on_schedule() {
    let config = Config { interval: 2, threshold_base: 2 * POS_SQ, threshold_spread: 1 };
    let mut w = World {
        particles: vec![Particle { pos: Vec2 { x: 0, y: 0 }, color: palette()[3] }],
        velocities: vec![2i64],
        dirs: vec![Vec2 { x: DIR_SCALE, y: 0 }],
        swap: SwapState::new(config.interval),
        config,
    };
    let mut rng = seeded_rng(1);
    w.tick(&mut rng);
    assert_eq!(w.swap.sign, 1);
    assert_eq!((w.particles[0].pos.x, w.particles[0].pos.y), (10_000, 0));
    w.tick(&mut rng);
    assert_eq!(w.swap.sign, -1, "the world's sign flips after the configured interval");
    w.tick(&mut rng);
    // The third tick runs under the flipped sign: the particle walks back.
    assert_eq!((w.particles[0].pos.x, w.particles[0].pos.y), (10_000, 0));
}

#[test]
fn frame_loop_control_rule() {
    assert_eq!(
        loop_step(LoopState::Running, LoopEvent::CloseRequested),
        (LoopState::Exiting, LoopAction::Exit)
    );
    assert_eq!(
        loop_step(LoopState::Running, LoopEvent::TickDue),
        (LoopState::Running, LoopAction::RunFrame)
    );
    assert_eq!(
        loop_step(LoopState::Running, LoopEvent::Ignored),
        (LoopState::Running, LoopAction::Idle)
    );
    assert_eq!(
        loop_step(LoopState::Exiting, LoopEvent::TickDue),
        (LoopState::Exiting, LoopAction::Idle)
    );
}

#[test]
fn empty_world_ticks() {
    let mut rng = seeded_rng(0);
    let mut w = World::new(demo_config(), Vec::new(), &mut rng).unwrap();
    assert_eq!(w.particles.len(), 0);
    w.tick(&mut rng);
    assert_eq!(w.particles.len(), 0);
    assert_eq!(w.swap.ticks, 1);
}

#[test]
fn full_size_world_stays_in_bounds() {
    // The original's particle count: forty thousand sprites, many ticks,
    // every position must stay within the recycling cap.
    let n: u64 = 40_000;
    let dirs: Vec<Vec2> = (0..n)
        .map(|i| {
            let a = particle_angle(i, n);
            let radians = (a.num as f64 / a.den as f64) * std::f64::consts::TAU;
            Vec2 {
                x: (radians.cos() * DIR_SCALE as f64).round() as i64,
                y: (radians.sin() * DIR_SCALE as f64).round() as i64,
            }
        })
        .collect();
    let mut rng = seeded_rng(7);
    let mut w = World::new(demo_config(), dirs, &mut rng).unwrap();
    for _ in 0..400 {
        w.tick(&mut rng);
    }
    for p in &w.particles {
        let d = (p.pos.x as i128) * (p.pos.x as i128) + (p.pos.y as i128) * (p.pos.y as i128);
        assert!(d <= 32_000_000_000_000);
    }
}

#[test]
fn zero_size_quad_collapses() {
    let q = make_quad(0);
    assert_eq!(q.len(), 6);
    for v in &q {
        assert_eq!((v.x, v.y), (0, 0));
        assert!(v.u <= 1 && v.v <= 1);
    }
}
