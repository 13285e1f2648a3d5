use vstd::prelude::*;

verus! {

/// One corner of the textured sprite quad.
///
/// Coordinates are in fixed-point world units (see `crate::units`); the
/// texture coordinates of a corner are always exactly 0 or 1, so they are
/// kept as plain `u8` values.
#[derive(Clone, Copy, PartialEq, Eq, Structural, Debug)]
pub struct QuadVertex {
    pub x: i64,
    pub y: i64,
    pub u: u8,
    pub v: u8,
}

/// Builds the six vertices of the two-triangle quad that every particle
/// sprite is drawn on: a square of half-width `size` centred on the origin,
/// with texture coordinates covering the unit square.
pub fn make_quad(size: i64) -> (quad: Vec<QuadVertex>)
    requires
        0 <= size,
    ensures
        quad.len() == 6,
        quad[0] == (QuadVertex { x: ((-size) as i64), y: size, u: 0, v: 1 }),
        quad[1] == (QuadVertex { x: size, y: ((-size) as i64), u: 1, v: 0 }),
        quad[2] == (QuadVertex { x: ((-size) as i64), y: ((-size) as i64), u: 0, v: 0 }),
        quad[3] == (QuadVertex { x: ((-size) as i64), y: size, u: 0, v: 1 }),
        quad[4] == (QuadVertex { x: size, y: ((-size) as i64), u: 1, v: 0 }),
        quad[5] == (QuadVertex { x: size, y: size, u: 1, v: 1 }),
{
    let mut quad: Vec<QuadVertex> = Vec::new();
    quad.push(QuadVertex { x: -size, y: size, u: 0, v: 1 });
    quad.push(QuadVertex { x: size, y: -size, u: 1, v: 0 });
    quad.push(QuadVertex { x: -size, y: -size, u: 0, v: 0 });
    quad.push(QuadVertex { x: -size, y: size, u: 0, v: 1 });
    quad.push(QuadVertex { x: size, y: -size, u: 1, v: 0 });
    quad.push(QuadVertex { x: size, y: size, u: 1, v: 1 });
    quad
}

} // verus!
