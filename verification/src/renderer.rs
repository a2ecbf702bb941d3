//! The H-tree renderer: a configured maximum depth and the recursive
//! emission of drawing primitives.

use vstd::prelude::*;

use crate::geometry::Color;
use crate::geometry::Frac;
use crate::geometry::Point;
use crate::geometry::Primitive;
use crate::geometry::half_len;
use crate::geometry::lemma_half_len_bounds;
use crate::geometry::spec_half_len;
use crate::geometry::spec_minus;
use crate::geometry::spec_plus;
use crate::geometry::spec_thickness_e;
use crate::geometry::thickness_e;

verus! {

/// Offsets this close to the origin, with a little slack per level already
/// descended, keep every coordinate the recursion forms inside the range
/// where `i64` sums are exact.
pub open spec fn coord_bounded(f: Frac, level: int) -> bool {
    &&& -(4294967296 + 512 * level) <= f.units <= 4294967296 + 512 * level
    &&& -(4294967296 + 512 * level) <= f.root_units <= 4294967296 + 512 * level
}

pub open spec fn point_bounded(p: Point, level: int) -> bool {
    coord_bounded(p.x, level) && coord_bounded(p.y, level)
}

/// The primitives a horizontal branch at `center` emits, in drawing order:
/// the two coloured half-segments, then the whole left subtree, then the
/// whole right subtree, then the two concentric marker discs.
pub open spec fn horizontal_prims(center: Point, level: int, max_level: int) -> Seq<Primitive>
    decreases max_level - level,
{
    if level >= max_level {
        Seq::empty()
    } else {
        let t = spec_thickness_e(level);
        let h = spec_half_len(level);
        let left = Point { x: spec_minus(center.x, h), y: center.y };
        let right = Point { x: spec_plus(center.x, h), y: center.y };
        seq![
            Primitive::HLine {
                x1: left.x,
                x2: center.x,
                y: center.y,
                width_e: t as u32,
                color: Color::Red,
            },
            Primitive::HLine {
                x1: center.x,
                x2: right.x,
                y: center.y,
                width_e: t as u32,
                color: Color::Green,
            },
        ] + vertical_prims(left, level + 1, max_level) + vertical_prims(
            right,
            level + 1,
            max_level,
        ) + seq![
            Primitive::Disc { x: center.x, y: center.y, radius_e: t as u32, color: Color::Black },
            Primitive::Disc {
                x: center.x,
                y: center.y,
                radius_e: (t / 2) as u32,
                color: Color::Yellow,
            },
        ]
    }
}

/// The primitives a vertical branch emits: the same shape as a horizontal
/// branch with the two axes swapped.
pub open spec fn vertical_prims(center: Point, level: int, max_level: int) -> Seq<Primitive>
    decreases max_level - level,
{
    if level >= max_level {
        Seq::empty()
    } else {
        let t = spec_thickness_e(level);
        let h = spec_half_len(level);
        let top = Point { x: center.x, y: spec_minus(center.y, h) };
        let bottom = Point { x: center.x, y: spec_plus(center.y, h) };
        seq![
            Primitive::VLine {
                x: center.x,
                y1: top.y,
                y2: center.y,
                width_e: t as u32,
                color: Color::Red,
            },
            Primitive::VLine {
                x: center.x,
                y1: center.y,
                y2: bottom.y,
                width_e: t as u32,
                color: Color::Green,
            },
        ] + horizontal_prims(top, level + 1, max_level) + horizontal_prims(
            bottom,
            level + 1,
            max_level,
        ) + seq![
            Primitive::Disc { x: center.x, y: center.y, radius_e: t as u32, color: Color::Black },
            Primitive::Disc {
                x: center.x,
                y: center.y,
                radius_e: (t / 2) as u32,
                color: Color::Yellow,
            },
        ]
    }
}

/// The full H-tree for a configured depth: a horizontal branch at the root.
pub open spec fn htree_prims(center: Point, max_level: int) -> Seq<Primitive> {
    horizontal_prims(center, 0, max_level)
}

/// The renderer's whole configuration: the maximum recursion depth,
/// between one and sixteen.
pub struct HtreeApp {
    max_level: usize,
}

impl HtreeApp {
    pub closed spec fn spec_max_level(&self) -> usize {
        self.max_level
    }

    /// The configured depth is always in range.
    pub open spec fn wf(&self) -> bool {
        1 <= self.spec_max_level() <= 16
    }

    #[verifier::when_used_as_spec(spec_max_level)]
    pub fn max_level(&self) -> (levels: usize)
        ensures
            levels == self.spec_max_level(),
    {
        self.max_level
    }

    pub fn new() -> (app: Self)
        ensures
            app.spec_max_level() == 1,
            app.wf(),
    {
        HtreeApp { max_level: 1 }
    }

    /// Reconfigure the depth, clamped to the slider's range of one to
    /// sixteen.
    pub fn set_max_level(&mut self, levels: usize)
        ensures
            final(self).spec_max_level() == if levels < 1 {
                1usize
            } else if levels > 16 {
                16usize
            } else {
                levels
            },
            final(self).wf(),
    {
        self.max_level = if levels < 1 {
            1
        } else if levels > 16 {
            16
        } else {
            levels
        };
    }
}

impl HtreeApp {
    /// Draw the whole H-tree around `center` (in lattice units; the host
    /// scales to pixels). The result is exactly the primitive sequence the
    /// configured depth determines, so two calls with the same centre and
    /// depth return identical sequences.
    pub fn draw(&self, center: Point) -> (prims: Vec<Primitive>)
        requires
            self.wf(),
            point_bounded(center, 0),
        ensures
            prims@ == htree_prims(center, self.spec_max_level() as int),
    {
        let mut prims: Vec<Primitive> = Vec::new();
        self.draw_horizontal(center, 0, &mut prims);
        prims
    }

    /// Emit one horizontal branch and its subtree onto `out`.
    ///
    /// At `level == max_level` the branch emits nothing at all; below it,
    /// it appends the two coloured half-segments, both child subtrees and
    /// the two marker discs, in drawing order.
    pub fn draw_horizontal(&self, center: Point, level: usize, out: &mut Vec<Primitive>)
        requires
            self.wf(),
            level <= self.spec_max_level(),
            point_bounded(center, level as int),
        ensures
            final(out)@ == old(out)@ + horizontal_prims(
                center,
                level as int,
                self.spec_max_level() as int,
            ),
            level == self.spec_max_level() ==> final(out)@ == old(out)@,
        decreases self.spec_max_level() - level,
    {
        if level == self.max_level {
            proof {
                assert(out@ =~= old(out)@ + horizontal_prims(
                    center,
                    level as int,
                    self.spec_max_level() as int,
                ));
            }
            return ;
        }
        let t = thickness_e(level);
        let h = half_len(level);
        proof {
            lemma_half_len_bounds(level as int);
        }
        let x1 = center.x.minus(&h);
        let x2 = center.x.plus(&h);
        out.push(
            Primitive::HLine { x1, x2: center.x, y: center.y, width_e: t, color: Color::Red },
        );
        out.push(
            Primitive::HLine { x1: center.x, x2, y: center.y, width_e: t, color: Color::Green },
        );
        let left = Point { x: x1, y: center.y };
        let right = Point { x: x2, y: center.y };
        self.draw_vertical(left, level + 1, out);
        self.draw_vertical(right, level + 1, out);
        out.push(
            Primitive::Disc { x: center.x, y: center.y, radius_e: t, color: Color::Black },
        );
        out.push(
            Primitive::Disc { x: center.x, y: center.y, radius_e: t / 2, color: Color::Yellow },
        );
        proof {
            assert(out@ =~= old(out)@ + horizontal_prims(
                center,
                level as int,
                self.spec_max_level() as int,
            ));
        }
    }

    /// Emit one vertical branch and its subtree onto `out`: the horizontal
    /// procedure with the axes swapped.
    pub fn draw_vertical(&self, center: Point, level: usize, out: &mut Vec<Primitive>)
        requires
            self.wf(),
            level <= self.spec_max_level(),
            point_bounded(center, level as int),
        ensures
            final(out)@ == old(out)@ + vertical_prims(
                center,
                level as int,
                self.spec_max_level() as int,
            ),
            level == self.spec_max_level() ==> final(out)@ == old(out)@,
        decreases self.spec_max_level() - level,
    {
        if level == self.max_level {
            proof {
                assert(out@ =~= old(out)@ + vertical_prims(
                    center,
                    level as int,
                    self.spec_max_level() as int,
                ));
            }
            return ;
        }
        let t = thickness_e(level);
        let h = half_len(level);
        proof {
            lemma_half_len_bounds(level as int);
        }
        let y1 = center.y.minus(&h);
        let y2 = center.y.plus(&h);
        out.push(
            Primitive::VLine { x: center.x, y1, y2: center.y, width_e: t, color: Color::Red },
        );
        out.push(
            Primitive::VLine { x: center.x, y1: center.y, y2, width_e: t, color: Color::Green },
        );
        let top = Point { x: center.x, y: y1 };
        let bottom = Point { x: center.x, y: y2 };
        self.draw_horizontal(top, level + 1, out);
        self.draw_horizontal(bottom, level + 1, out);
        out.push(
            Primitive::Disc { x: center.x, y: center.y, radius_e: t, color: Color::Black },
        );
        out.push(
            Primitive::Disc { x: center.x, y: center.y, radius_e: t / 2, color: Color::Yellow },
        );
        proof {
            assert(out@ =~= old(out)@ + vertical_prims(
                center,
                level as int,
                self.spec_max_level() as int,
            ));
        }
    }
}

impl Default for HtreeApp {
    fn default() -> (app: Self)
        ensures
            app.spec_max_level() == 1,
            app.wf(),
    {
        HtreeApp { max_level: 1 }
    }
}

/// How many primitives a branch with `remaining` levels below it emits:
/// none at the terminal level, and otherwise four of its own plus two full
/// child subtrees.
pub open spec fn prim_count(remaining: nat) -> nat
    decreases remaining,
{
    if remaining == 0 {
        0
    } else {
        4 + 2 * prim_count((remaining - 1) as nat)
    }
}

/// Every branch emits a finite primitive sequence whose length is a fixed
/// function of the remaining depth alone: it does not depend on the centre
/// point or on the branch's orientation.
pub proof fn lemma_prim_count(center: Point, level: int, max_level: int)
    requires
        0 <= level <= max_level,
    ensures
        horizontal_prims(center, level, max_level).len() == prim_count((max_level - level) as nat),
        vertical_prims(center, level, max_level).len() == prim_count((max_level - level) as nat),
    decreases max_level - level,
{
    if level < max_level {
        let h = spec_half_len(level);
        lemma_prim_count(
            Point { x: spec_minus(center.x, h), y: center.y },
            level + 1,
            max_level,
        );
        lemma_prim_count(
            Point { x: spec_plus(center.x, h), y: center.y },
            level + 1,
            max_level,
        );
        lemma_prim_count(
            Point { x: center.x, y: spec_minus(center.y, h) },
            level + 1,
            max_level,
        );
        lemma_prim_count(
            Point { x: center.x, y: spec_plus(center.y, h) },
            level + 1,
            max_level,
        );
    }
}

/// The closed form of the count: a branch with `remaining` levels below it
/// emits `4 * (2^remaining - 1)` primitives.
pub proof fn lemma_prim_count_closed_form(remaining: nat)
    ensures
        prim_count(remaining) == 4 * (vstd::arithmetic::power2::pow2(remaining) - 1),
    decreases remaining,
{
    if remaining == 0 {
        vstd::arithmetic::power2::lemma2_to64();
    } else {
        lemma_prim_count_closed_form((remaining - 1) as nat);
        vstd::arithmetic::power2::lemma_pow2_unfold(remaining);
    }
}

/// The whole tree for a configured depth `d` emits exactly
/// `4 * (2^d - 1)` primitives, wherever it is centred.
pub proof fn lemma_htree_count(center: Point, max_level: int)
    requires
        0 <= max_level,
    ensures
        htree_prims(center, max_level).len() == 4 * (vstd::arithmetic::power2::pow2(
            max_level as nat,
        ) - 1),
{
    lemma_prim_count(center, 0, max_level);
    lemma_prim_count_closed_form(max_level as nat);
}

/// A branch that starts at the configured depth emits no primitives at
/// all, in either orientation: the recursion short-circuits before either
/// half-segment is drawn.
pub proof fn lemma_terminal_level_empty(center: Point, max_level: int)
    ensures
        horizontal_prims(center, max_level, max_level) == Seq::<Primitive>::empty(),
        vertical_prims(center, max_level, max_level) == Seq::<Primitive>::empty(),
{
}

/// Drawing is pure: two primitive sequences obtained from the same centre
/// and the same configured depth are identical.
pub proof fn lemma_draw_deterministic(
    first: Seq<Primitive>,
    second: Seq<Primitive>,
    center: Point,
    max_level: int,
)
    requires
        first == htree_prims(center, max_level),
        second == htree_prims(center, max_level),
    ensures
        first == second,
{
}

} // verus!
