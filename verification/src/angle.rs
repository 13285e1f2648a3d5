use vstd::prelude::*;

verus! {

/// An angle held exactly, as a fraction of a full turn: `Angle { num, den }`
/// stands for `num * 2π / den` radians. Keeping the fraction instead of a
/// rounded scalar makes the uniform placement of the particles exact.
#[derive(Clone, Copy, PartialEq, Eq, Structural, Debug)]
pub struct Angle {
    pub num: u64,
    pub den: u64,
}

impl Angle {
    /// A placement angle is a proper fraction of one turn.
    pub open spec fn wf(self) -> bool {
        0 < self.den && self.num < self.den
    }

    /// Whether this angle equals `index * 2π / count` radians, compared as
    /// exact rationals (by cross-multiplication), independent of the
    /// representation chosen.
    pub open spec fn is_turn_fraction(self, index: int, count: int) -> bool {
        self.num * count == index * self.den
    }
}

/// The initial direction angle of particle `index` out of `count`:
/// placement is uniform, angle `index * 2π / count` exactly.
pub fn particle_angle(index: u64, count: u64) -> (a: Angle)
    requires
        0 < count,
        index < count,
    ensures
        a.wf(),
        a.is_turn_fraction(index as int, count as int),
{
    Angle { num: index, den: count }
}

/// Uniform placement, stated over the whole ring: every particle's angle
/// is exactly its index's fraction of a full turn, so two consecutive
/// particles are always one `count`-th of a turn apart.
pub proof fn lemma_uniform_placement(a: Angle, b: Angle, index: int, count: int)
    requires
        0 < count,
        0 <= index,
        index + 1 < count,
        a.wf(),
        b.wf(),
        a.is_turn_fraction(index, count),
        b.is_turn_fraction(index + 1, count),
    ensures
        (b.num * a.den - a.num * b.den) * count == a.den * b.den,
{
    assert(b.num * count == (index + 1) * b.den);
    assert(a.num * count == index * a.den);
    assert((b.num * a.den - a.num * b.den) * count == a.den * b.den) by (nonlinear_arith)
        requires
            b.num * count == (index + 1) * b.den,
            a.num * count == index * a.den,
    ;
}

} // verus!
