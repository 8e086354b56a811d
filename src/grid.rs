//! The primitive registry: a dense, row-major grid of primitives laid out on
//! an integer lattice, coloured by a latch, and displaced each tick from their
//! fixed origins.

use vstd::prelude::*;
use vstd::arithmetic::div_mod::{
    lemma_basic_div,
    lemma_div_nonincreasing,
    lemma_fundamental_div_mod,
    lemma_fundamental_div_mod_converse,
    lemma_mod_pos_bound,
};
use vstd::arithmetic::mul::{lemma_mul_inequality, lemma_mul_is_distributive_add_other_way};
use crate::config::ConfigError;
use crate::geometry::{Point, Rgb};

verus! {

/// One drawable shape: its fixed spawn anchor, where it is drawn now, and
/// its colour.
#[derive(Clone, Copy, Debug, PartialEq, Eq, Structural)]
pub struct Primitive {
    pub origin: Point,
    pub position: Point,
    pub color: Rgb,
}

/// The number of lattice coordinates `k * spacing` (with `k >= 0`) that lie
/// below `bound`.
pub open spec fn lattice_count(spacing: int, bound: int) -> int {
    if bound <= 0 {
        0
    } else {
        (bound - 1) / spacing + 1
    }
}

/// How often the latch has been hit once the cell at `(row, col)` is placed:
/// once at the start of each row and once for each cell so far.
pub open spec fn latch_hits(cols: int, row: int, col: int) -> int {
    (row + 1) + row * cols + (col + 1)
}

/// The latch is set after an odd number of hits; it starts cleared.
pub open spec fn latch_at(cols: int, row: int, col: int) -> bool {
    latch_hits(cols, row, col) % 2 == 1
}

/// The colour of a cell: the second colour where the latch is set, else the
/// first.
pub open spec fn lattice_color(cols: int, row: int, col: int, color_a: Rgb, color_b: Rgb) -> Rgb {
    if latch_at(cols, row, col) {
        color_b
    } else {
        color_a
    }
}

/// The origin of the primitive at row-major index `i`.
pub open spec fn lattice_origin(spacing: int, cols: int, i: int) -> Point {
    Point { x: ((i % cols) * spacing) as i64, y: ((i / cols) * spacing) as i64 }
}

/// A primitive with its position moved and everything else kept.
pub open spec fn with_position(p: Primitive, position: Point) -> Primitive {
    Primitive { origin: p.origin, position, color: p.color }
}

/// A primitive drawn at its origin shifted by `d` along the X axis.
pub open spec fn displaced(p: Primitive, d: i64) -> Primitive {
    with_position(p, Point { x: (p.origin.x + d) as i64, y: p.origin.y })
}

/// Each primitive drawn at its origin shifted by its own displacement.
pub open spec fn animated(prims: Seq<Primitive>, d: Seq<i64>) -> Seq<Primitive> {
    Seq::new(prims.len(), |i: int| displaced(prims[i], d[i]))
}

/// Every shifted position fits in an `i64`.
pub open spec fn displacements_fit(prims: Seq<Primitive>, d: Seq<i64>) -> bool {
    forall|i: int|
        0 <= i < prims.len() ==> i64::MIN <= #[trigger] prims[i].origin.x + d[i] <= i64::MAX
}

/// A dense grid of primitives in row-major order.
#[derive(Clone, Debug)]
pub struct PrimitiveRegistry {
    pub spacing: i64,
    pub width: u32,
    pub height: u32,
    pub rows: usize,
    pub cols: usize,
    pub color_a: Rgb,
    pub color_b: Rgb,
    pub primitives: Vec<Primitive>,
}

impl PrimitiveRegistry {
    /// The layout that the registry was created with: lattice, bounds and
    /// colours, and for each primitive its origin and colour.
    pub open spec fn wf(&self) -> bool {
        &&& self.spacing > 0
        &&& self.rows == lattice_count(self.spacing as int, self.height as int)
        &&& self.cols == lattice_count(self.spacing as int, self.width as int)
        &&& self.primitives@.len() == self.rows * self.cols
        &&& forall|i: int|
            0 <= i < self.primitives@.len() ==> {
                &&& (#[trigger] self.primitives@[i]).origin == lattice_origin(
                    self.spacing as int,
                    self.cols as int,
                    i,
                )
                &&& self.primitives@[i].color == lattice_color(
                    self.cols as int,
                    i / self.cols as int,
                    i % self.cols as int,
                    self.color_a,
                    self.color_b,
                )
            }
    }

    /// Both registries have the same lattice, bounds and colours.
    pub open spec fn same_layout(&self, other: &PrimitiveRegistry) -> bool {
        &&& self.spacing == other.spacing
        &&& self.width == other.width
        &&& self.height == other.height
        &&& self.rows == other.rows
        &&& self.cols == other.cols
        &&& self.color_a == other.color_a
        &&& self.color_b == other.color_b
    }

    /// The number of primitives.
    pub fn len(&self) -> (n: usize)
        ensures
            n == self.primitives@.len(),
    {
        self.primitives.len()
    }

    /// The primitive with index `id`.
    pub fn get(&self, id: usize) -> (p: Primitive)
        requires
            id < self.primitives@.len(),
        ensures
            p == self.primitives@[id as int],
    {
        self.primitives[id]
    }

    /// Moves the primitive with index `id` to `position`.
    pub fn update(&mut self, id: usize, position: Point)
        requires
            old(self).wf(),
            id < old(self).primitives@.len(),
        ensures
            final(self).wf(),
            final(self).same_layout(old(self)),
            final(self).primitives@ == old(self).primitives@.update(
                id as int,
                with_position(old(self).primitives@[id as int], position),
            ),
    {
        let p = self.primitives[id];
        self.primitives[id] = Primitive { origin: p.origin, position, color: p.color };
    }

    /// Redraws every primitive at its origin shifted along the X axis by its
    /// own displacement; earlier positions play no part.
    pub fn animate(&mut self, displacements: &Vec<i64>)
        requires
            old(self).wf(),
            displacements@.len() == old(self).primitives@.len(),
            displacements_fit(old(self).primitives@, displacements@),
        ensures
            final(self).wf(),
            final(self).same_layout(old(self)),
            final(self).primitives@ == animated(old(self).primitives@, displacements@),
    {
        let ghost before = self.primitives@;
        let n = self.primitives.len();
        let mut i: usize = 0;
        while i < n
            invariant
                n == before.len(),
                displacements@.len() == n,
                displacements_fit(before, displacements@),
                self.primitives@.len() == n,
                self.same_layout(old(self)),
                before == old(self).primitives@,
                old(self).wf(),
                i <= n,
                forall|j: int|
                    0 <= j < i ==> #[trigger] self.primitives@[j] == displaced(
                        before[j],
                        displacements@[j],
                    ),
                forall|j: int| i <= j < n ==> #[trigger] self.primitives@[j] == before[j],
            decreases n - i,
        {
            let p = self.primitives[i];
            let d = displacements[i];
            assert(i64::MIN <= before[i as int].origin.x + displacements@[i as int] <= i64::MAX);
            let x = p.origin.x + d;
            self.primitives[i] = Primitive {
                origin: p.origin,
                position: Point { x, y: p.origin.y },
                color: p.color,
            };
            i += 1;
        }
        assert(self.primitives@ =~= animated(before, displacements@));
    }
}

/// The number of lattice coordinates below `bound`.
fn lattice_len(spacing: i64, bound: u32) -> (n: usize)
    requires
        spacing > 0,
    ensures
        n == lattice_count(spacing as int, bound as int),
        n <= bound,
{
    if bound == 0 {
        0
    } else {
        proof {
            lemma_div_nonincreasing(bound - 1, spacing as int);
        }
        (((bound as i64) - 1) / spacing + 1) as usize
    }
}

/// Every lattice coordinate that is counted lies below the bound.
proof fn lemma_lattice_below(spacing: int, bound: int, k: int)
    requires
        spacing > 0,
        0 <= k < lattice_count(spacing, bound),
    ensures
        0 <= k * spacing < bound,
{
    let q = (bound - 1) / spacing;
    lemma_fundamental_div_mod(bound - 1, spacing);
    lemma_mod_pos_bound(bound - 1, spacing);
    lemma_mul_inequality(k, q, spacing);
    lemma_mul_inequality(0, k, spacing);
    assert(q * spacing == spacing * q) by (nonlinear_arith);
}

/// Lays out primitives on the lattice `(col * spacing, row * spacing)` within
/// `width` by `height`, in row-major order, each drawn at its origin. A latch
/// that starts cleared is hit at the start of each row and before each cell;
/// a cell takes `color_b` where the latch is set and `color_a` where it is
/// not. A non-positive spacing is refused.
pub fn create_grid(spacing: i64, width: u32, height: u32, color_a: Rgb, color_b: Rgb) -> (r: Result<
    PrimitiveRegistry,
    ConfigError,
>)
    ensures
        match r {
            Ok(g) => {
                &&& spacing > 0
                &&& g.wf()
                &&& g.spacing == spacing
                &&& g.width == width
                &&& g.height == height
                &&& g.color_a == color_a
                &&& g.color_b == color_b
                &&& forall|i: int|
                    0 <= i < g.primitives@.len() ==> (#[trigger] g.primitives@[i]).position
                        == g.primitives@[i].origin
            },
            Err(e) => spacing <= 0 && e == ConfigError::NonPositiveSpacing,
        },
{
    if spacing <= 0 {
        return Err(ConfigError::NonPositiveSpacing);
    }
    let rows = lattice_len(spacing, height);
    let cols = lattice_len(spacing, width);
    let mut prims: Vec<Primitive> = Vec::new();
    let mut latch = false;
    let mut row: usize = 0;
    while row < rows
        invariant
            spacing > 0,
            rows == lattice_count(spacing as int, height as int),
            cols == lattice_count(spacing as int, width as int),
            row <= rows,
            prims@.len() == row * cols,
            latch == ((row + row * cols) % 2 == 1),
            forall|i: int|
                0 <= i < prims@.len() ==> {
                    &&& (#[trigger] prims@[i]).origin == lattice_origin(
                        spacing as int,
                        cols as int,
                        i,
                    )
                    &&& prims@[i].position == prims@[i].origin
                    &&& prims@[i].color == lattice_color(
                        cols as int,
                        i / cols as int,
                        i % cols as int,
                        color_a,
                        color_b,
                    )
                },
        decreases rows - row,
    {
        proof {
            lemma_lattice_below(spacing as int, height as int, row as int);
        }
        let y: i64 = row as i64 * spacing;
        latch = !latch;
        let mut col: usize = 0;
        while col < cols
            invariant
                spacing > 0,
                cols == lattice_count(spacing as int, width as int),
                row < rows,
                y == row * spacing,
                col <= cols,
                prims@.len() == row * cols + col,
                latch == ((row + 1 + row * cols + col) % 2 == 1),
                forall|i: int|
                    0 <= i < prims@.len() ==> {
                        &&& (#[trigger] prims@[i]).origin == lattice_origin(
                            spacing as int,
                            cols as int,
                            i,
                        )
                        &&& prims@[i].position == prims@[i].origin
                        &&& prims@[i].color == lattice_color(
                            cols as int,
                            i / cols as int,
                            i % cols as int,
                            color_a,
                            color_b,
                        )
                    },
            decreases cols - col,
        {
            proof {
                lemma_lattice_below(spacing as int, width as int, col as int);
            }
            let x: i64 = col as i64 * spacing;
            latch = !latch;
            let color = if latch {
                color_b
            } else {
                color_a
            };
            let origin = Point { x, y };
            let ghost idx = row * cols + col;
            proof {
                lemma_fundamental_div_mod_converse(idx, cols as int, row as int, col as int);
            }
            prims.push(Primitive { origin, position: origin, color });
            col += 1;
        }
        proof {
            lemma_mul_is_distributive_add_other_way(cols as int, row as int, 1);
        }
        row += 1;
    }
    Ok(
        PrimitiveRegistry {
            spacing,
            width,
            height,
            rows,
            cols,
            color_a,
            color_b,
            primitives: prims,
        },
    )
}

/// Positions after an animation pass depend only on the origins and the
/// displacements: two grids with the same origins end at the same positions,
/// whatever positions they held before.
pub proof fn lemma_animation_is_stateless(a: Seq<Primitive>, b: Seq<Primitive>, d: Seq<i64>)
    requires
        a.len() == b.len(),
        forall|i: int| 0 <= i < a.len() ==> (#[trigger] a[i]).origin == b[i].origin,
    ensures
        animated(a, d).len() == animated(b, d).len(),
        forall|i: int|
            0 <= i < a.len() ==> (#[trigger] animated(a, d)[i]).position == animated(b, d)[i].position,
{
}

/// Replaying an animation pass with the same displacements changes nothing.
pub proof fn lemma_animation_replay(p: Seq<Primitive>, d: Seq<i64>)
    ensures
        animated(animated(p, d), d) == animated(p, d),
{
    assert(animated(animated(p, d), d) =~= animated(p, d));
}

/// A spacing wider than both non-empty bounds gives a grid of exactly one
/// primitive.
pub proof fn lemma_wide_spacing_single_primitive(spacing: int, width: int, height: int)
    requires
        0 < width < spacing,
        0 < height < spacing,
    ensures
        lattice_count(spacing, width) == 1,
        lattice_count(spacing, height) == 1,
        lattice_count(spacing, width) * lattice_count(spacing, height) == 1,
{
    lemma_basic_div(width - 1, spacing);
    lemma_basic_div(height - 1, spacing);
}

} // verus!
