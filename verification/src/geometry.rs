//! Exact scalars, points and drawing primitives for the H-tree.
//!
//! Every length the tree uses is the initial length times `(1/sqrt(2))^k`
//! for some level `k`, and every coordinate is the centre plus sums of such
//! lengths. Measured in 512ths of the initial length, all of these values
//! lie in the lattice `{ u + r / sqrt(2) | u, r integers }` as long as at
//! most sixteen levels are drawn, so a pair of integers represents each
//! scalar with no rounding at all.

use vstd::prelude::*;

verus! {

/// A scalar in the H-tree coordinate lattice.
///
/// The value denoted is `(units + root_units / sqrt(2)) / 512` of the
/// initial segment length.
#[derive(Clone, Copy, Debug, PartialEq, Eq, Structural)]
pub struct Frac {
    pub units: i64,
    pub root_units: i64,
}

/// A point, as a pair of lattice offsets from the canvas origin.
#[derive(Clone, Copy, Debug, PartialEq, Eq, Structural)]
pub struct Point {
    pub x: Frac,
    pub y: Frac,
}

/// The palette the renderer draws with.
#[derive(Clone, Copy, Debug, PartialEq, Eq, Structural)]
pub enum Color {
    Red,
    Green,
    Black,
    Yellow,
}

/// One drawing command.
///
/// Stroke widths and disc radii are in eighths of a pixel, so that the
/// thickness rule `max(1, (16 - level) / 4)` pixels and its half are both
/// integers at every level.
#[derive(Clone, Copy, Debug, PartialEq, Eq, Structural)]
pub enum Primitive {
    /// A horizontal stroke from `x1` to `x2` at height `y`.
    HLine { x1: Frac, x2: Frac, y: Frac, width_e: u32, color: Color },
    /// A vertical stroke from `y1` to `y2` at abscissa `x`.
    VLine { x: Frac, y1: Frac, y2: Frac, width_e: u32, color: Color },
    /// A filled disc centred on `(x, y)`.
    Disc { x: Frac, y: Frac, radius_e: u32, color: Color },
}

/// Scalars this far from zero stay clear of `i64` overflow in every sum the
/// renderer forms.
pub open spec fn frac_small(f: Frac) -> bool {
    &&& -1000000000000 <= f.units <= 1000000000000
    &&& -1000000000000 <= f.root_units <= 1000000000000
}

pub open spec fn spec_plus(a: Frac, b: Frac) -> Frac {
    Frac {
        units: (a.units + b.units) as i64,
        root_units: (a.root_units + b.root_units) as i64,
    }
}

pub open spec fn spec_minus(a: Frac, b: Frac) -> Frac {
    Frac {
        units: (a.units - b.units) as i64,
        root_units: (a.root_units - b.root_units) as i64,
    }
}

impl Frac {
    pub fn plus(&self, other: &Frac) -> (r: Frac)
        requires
            frac_small(*self),
            frac_small(*other),
        ensures
            r == spec_plus(*self, *other),
    {
        Frac { units: self.units + other.units, root_units: self.root_units + other.root_units }
    }

    pub fn minus(&self, other: &Frac) -> (r: Frac)
        requires
            frac_small(*self),
            frac_small(*other),
        ensures
            r == spec_minus(*self, *other),
    {
        Frac { units: self.units - other.units, root_units: self.root_units - other.root_units }
    }
}

/// Dividing a lattice scalar by `sqrt(2)`:
/// `(u + r / sqrt(2)) / sqrt(2) = r / 2 + u / sqrt(2)`.
pub open spec fn spec_scale_down(f: Frac) -> Frac {
    Frac { units: (f.root_units / 2) as i64, root_units: f.units }
}

/// Half the segment length at a given level: half the initial length at the
/// root, and `1 / sqrt(2)` of the previous level's value below it.
pub open spec fn spec_half_len(level: int) -> Frac
    decreases level,
{
    if level <= 0 {
        Frac { units: 256, root_units: 0 }
    } else {
        spec_scale_down(spec_half_len(level - 1))
    }
}

pub proof fn lemma_half_len_bounds(level: int)
    ensures
        0 <= spec_half_len(level).units <= 256,
        0 <= spec_half_len(level).root_units <= 256,
    decreases level,
{
    if level > 0 {
        lemma_half_len_bounds(level - 1);
    }
}

/// The half-length at each of the seventeen levels the renderer can reach.
pub proof fn lemma_half_len_table()
    ensures
        spec_half_len(0) == (Frac { units: 256, root_units: 0 }),
        spec_half_len(1) == (Frac { units: 0, root_units: 256 }),
        spec_half_len(2) == (Frac { units: 128, root_units: 0 }),
        spec_half_len(3) == (Frac { units: 0, root_units: 128 }),
        spec_half_len(4) == (Frac { units: 64, root_units: 0 }),
        spec_half_len(5) == (Frac { units: 0, root_units: 64 }),
        spec_half_len(6) == (Frac { units: 32, root_units: 0 }),
        spec_half_len(7) == (Frac { units: 0, root_units: 32 }),
        spec_half_len(8) == (Frac { units: 16, root_units: 0 }),
        spec_half_len(9) == (Frac { units: 0, root_units: 16 }),
        spec_half_len(10) == (Frac { units: 8, root_units: 0 }),
        spec_half_len(11) == (Frac { units: 0, root_units: 8 }),
        spec_half_len(12) == (Frac { units: 4, root_units: 0 }),
        spec_half_len(13) == (Frac { units: 0, root_units: 4 }),
        spec_half_len(14) == (Frac { units: 2, root_units: 0 }),
        spec_half_len(15) == (Frac { units: 0, root_units: 2 }),
        spec_half_len(16) == (Frac { units: 1, root_units: 0 }),
{
    reveal_with_fuel(spec_half_len, 18);
}

/// The half-length shrinks by exactly `1 / sqrt(2)` per level. Writing a
/// lattice scalar `(u, r)` for the value `u + r / sqrt(2)`, multiplying the
/// next level's value by `sqrt(2)` gives `(r', 2 u')`, so the two clauses
/// below say precisely `next * sqrt(2) == current`: no rounding occurs at
/// any level the renderer can reach, and after `n` levels the half-length is
/// the root half-length times `(1 / sqrt(2))^n` exactly.
pub proof fn lemma_half_len_scales(level: int)
    requires
        0 <= level < 16,
    ensures
        2 * spec_half_len(level + 1).units == spec_half_len(level).root_units,
        spec_half_len(level + 1).root_units == spec_half_len(level).units,
{
    lemma_half_len_table();
}

pub fn half_len(level: usize) -> (h: Frac)
    requires
        level <= 16,
    ensures
        h == spec_half_len(level as int),
    decreases level,
{
    if level == 0 {
        Frac { units: 256, root_units: 0 }
    } else {
        let prev = half_len(level - 1);
        proof {
            lemma_half_len_bounds(level as int - 1);
        }
        Frac { units: prev.root_units / 2, root_units: prev.units }
    }
}

/// The stroke thickness at a level, in eighths of a pixel:
/// `max(1, (16 - level) / 4)` pixels.
pub open spec fn spec_thickness_e(level: int) -> int {
    if 2 * (16 - level) >= 8 {
        2 * (16 - level)
    } else {
        8
    }
}

pub fn thickness_e(level: usize) -> (t: u32)
    requires
        level < 16,
    ensures
        t == spec_thickness_e(level as int),
{
    let raw: u32 = 2 * (16 - level as u32);
    if raw >= 8 {
        raw
    } else {
        8
    }
}

/// Thickness never grows with depth, and never drops below one pixel
/// (eight eighths).
pub proof fn lemma_thickness_monotone(shallow: int, deep: int)
    requires
        0 <= shallow <= deep < 16,
    ensures
        spec_thickness_e(deep) <= spec_thickness_e(shallow),
        spec_thickness_e(deep) >= 8,
{
}

} // verus!
