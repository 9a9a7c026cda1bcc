//! Bounded grid geometry: clamping a cursor into the field and snapping it
//! to the centre of a grid cell.
//!
//! Coordinates are whole units. A field that needs finer steps is measured in
//! a finer unit; every division below is the floor division of integers.

use vstd::prelude::*;
use vstd::arithmetic::div_mod::{
    lemma_div_is_ordered, lemma_fundamental_div_mod, lemma_fundamental_div_mod_converse,
    lemma_mod_bound,
};
use vstd::arithmetic::mul::{lemma_mul_inequality, lemma_mul_is_commutative};

verus! {

/// A point of the field, in field-local units.
#[derive(Clone, Copy, Debug, PartialEq, Eq, Structural)]
pub struct Point {
    pub x: i32,
    pub y: i32,
}

/// The address of a grid square: its column and its row.
#[derive(Clone, Copy, Debug, PartialEq, Eq, Structural)]
pub struct Cell {
    pub column: i32,
    pub row: i32,
}

/// One axis of the field: the half-extent of the field, the size of a cell
/// and the gap between two cells along it.
#[derive(Clone, Copy, Debug, PartialEq, Eq, Structural)]
pub struct Axis {
    pub half: i32,
    pub cell: i32,
    pub gap: i32,
}

impl Axis {
    /// An axis is well formed when a cell has a size, the gap is not
    /// negative, a whole cell fits between the two edges, and the field
    /// widened by one pitch still fits the coordinate type.
    pub open spec fn wf(self) -> bool {
        &&& 0 < self.cell
        &&& 0 <= self.gap
        &&& self.cell / 2 <= self.half
        &&& self.half + self.cell + self.gap <= i32::MAX
    }

    /// The distance between the centres of two neighbouring cells.
    pub open spec fn pitch(self) -> int {
        self.cell + self.gap
    }

    /// The lowest coordinate at which a tile's footprint stays in the field.
    pub open spec fn lo(self) -> int {
        -self.half + self.cell / 2
    }

    /// The highest coordinate at which a tile's footprint stays in the field.
    pub open spec fn hi(self) -> int {
        self.half - self.cell / 2
    }

    /// The coordinate `c` pulled into `[lo, hi]`.
    pub open spec fn spec_clamp(self, c: int) -> int {
        if c < self.lo() {
            self.lo()
        } else if c > self.hi() {
            self.hi()
        } else {
            c
        }
    }

    /// The index of the cell whose span `[k * pitch, (k + 1) * pitch)` holds `c`.
    pub open spec fn spec_index(self, c: int) -> int {
        c / self.pitch()
    }

    /// The centre of the cell with index `k`.
    pub open spec fn spec_center(self, k: int) -> int {
        k * self.pitch() + self.pitch() / 2
    }

    /// The centre of the cell that holds the clamped coordinate.
    pub open spec fn spec_snap(self, c: int) -> int {
        self.spec_center(self.spec_index(self.spec_clamp(c)))
    }

    /// Whether `k` is the index of a cell that a clamped coordinate can fall in.
    pub open spec fn in_range(self, k: int) -> bool {
        self.spec_index(self.lo()) <= k <= self.spec_index(self.hi())
    }

    /// Whether the cells at the two ends of the axis have their centres
    /// between the clamp limits.
    pub open spec fn spec_edges_fit(self) -> bool {
        self.lo() <= self.spec_snap(self.lo()) && self.spec_snap(self.hi()) <= self.hi()
    }

    /// The cell that holds `c` starts at or below `c` and ends above it.
    pub proof fn lemma_index_brackets(self, c: int)
        requires
            self.pitch() > 0,
        ensures
            self.spec_index(c) * self.pitch() <= c < self.spec_index(c) * self.pitch()
                + self.pitch(),
    {
        let p = self.pitch();
        lemma_fundamental_div_mod(c, p);
        lemma_mod_bound(c, p);
        lemma_mul_is_commutative(p, c / p);
    }

    /// A coordinate inside the span of cell `k` has index `k`.
    pub proof fn lemma_index_of_span(self, c: int, k: int)
        requires
            self.pitch() > 0,
            k * self.pitch() <= c < k * self.pitch() + self.pitch(),
        ensures
            self.spec_index(c) == k,
    {
        lemma_fundamental_div_mod_converse(c, self.pitch(), k, c - k * self.pitch());
    }

    /// The centre of a cell lies in the cell, so its index is the cell's.
    pub proof fn lemma_index_of_center(self, k: int)
        requires
            self.pitch() > 0,
        ensures
            self.spec_index(self.spec_center(k)) == k,
    {
        self.lemma_index_of_span(self.spec_center(k), k);
    }

    /// A larger coordinate never falls in a cell with a smaller centre.
    pub proof fn lemma_center_monotone(self, a: int, b: int)
        requires
            self.pitch() > 0,
            a <= b,
        ensures
            self.spec_index(a) <= self.spec_index(b),
            self.spec_center(self.spec_index(a)) <= self.spec_center(self.spec_index(b)),
    {
        let p = self.pitch();
        lemma_div_is_ordered(a, b, p);
        lemma_mul_inequality(a / p, b / p, p);
    }

    /// The snapped coordinate is less than one pitch from the clamped one,
    /// and so fits the coordinate type.
    pub proof fn lemma_snap_near_clamp(self, c: int)
        requires
            self.wf(),
        ensures
            self.lo() <= self.spec_clamp(c) <= self.hi(),
            self.spec_clamp(c) - self.pitch() < self.spec_snap(c) - self.pitch() / 2
                <= self.spec_clamp(c),
            i32::MIN < self.spec_snap(c) <= i32::MAX,
            i32::MIN < self.spec_index(self.spec_clamp(c)) <= i32::MAX,
            self.in_range(self.spec_index(self.spec_clamp(c))),
    {
        let p = self.pitch();
        let cc = self.spec_clamp(c);
        self.lemma_index_brackets(cc);
        self.lemma_center_monotone(self.lo(), cc);
        self.lemma_center_monotone(cc, self.hi());
        let k = self.spec_index(cc);
        assert(-(i32::MAX as int) <= k <= i32::MAX) by (nonlinear_arith)
            requires
                k * p <= cc < k * p + p,
                -(i32::MAX as int) <= cc <= i32::MAX,
                0 < p,
        ;
    }

    /// Snapping a snapped coordinate changes nothing.
    pub proof fn lemma_snap_idempotent(self, c: int)
        requires
            self.wf(),
        ensures
            self.spec_snap(self.spec_snap(c)) == self.spec_snap(c),
    {
        let p = self.pitch();
        let cc = self.spec_clamp(c);
        let k = self.spec_index(cc);
        let s = self.spec_snap(c);
        self.lemma_index_brackets(cc);
        self.lemma_index_of_span(self.spec_clamp(s), k);
    }

    /// Snapping keeps the order of two coordinates.
    pub proof fn lemma_snap_monotone(self, a: int, b: int)
        requires
            self.wf(),
            a <= b,
        ensures
            self.spec_snap(a) <= self.spec_snap(b),
    {
        self.lemma_center_monotone(self.spec_clamp(a), self.spec_clamp(b));
    }

    /// Every snapped coordinate lies between the snapped clamp limits.
    pub proof fn lemma_snap_between_ends(self, c: int)
        requires
            self.wf(),
        ensures
            self.spec_snap(self.lo()) <= self.spec_snap(c) <= self.spec_snap(self.hi()),
    {
        self.lemma_center_monotone(self.lo(), self.spec_clamp(c));
        self.lemma_center_monotone(self.spec_clamp(c), self.hi());
    }

    /// Where the end cells fit, every snapped coordinate stays between the
    /// clamp limits: the field's edge less half a cell on each side.
    pub proof fn lemma_snap_bounded(self, c: int)
        requires
            self.wf(),
            self.spec_edges_fit(),
        ensures
            self.lo() <= self.spec_snap(c) <= self.hi(),
            -self.half + self.cell / 2 <= self.spec_snap(c) <= self.half - self.cell / 2,
    {
        self.lemma_snap_between_ends(c);
    }

    /// The centre of a cell of the field is a coordinate that snapping
    /// leaves where it is.
    pub proof fn lemma_center_fixed(self, k: int)
        requires
            self.wf(),
            self.in_range(k),
        ensures
            self.spec_snap(self.spec_center(k)) == self.spec_center(k),
            i32::MIN < self.spec_center(k) <= i32::MAX,
    {
        let p = self.pitch();
        let a = self.spec_index(self.lo());
        let b = self.spec_index(self.hi());
        self.lemma_index_brackets(self.lo());
        self.lemma_index_brackets(self.hi());
        lemma_mul_inequality(a, k, p);
        lemma_mul_inequality(k, b, p);
        let s = self.spec_center(k);
        if s < self.lo() {
            assert(a == k) by (nonlinear_arith)
                requires
                    a <= k,
                    k * p <= s < self.lo(),
                    self.lo() < a * p + p,
                    0 < p,
            ;
        } else if s > self.hi() {
            assert(b == k) by (nonlinear_arith)
                requires
                    k <= b,
                    b * p <= self.hi() < s,
                    s < k * p + p,
                    0 < p,
            ;
        } else {
            self.lemma_index_of_center(k);
        }
    }

    /// Whether the axis is well formed.
    pub fn is_wf(&self) -> (b: bool)
        ensures
            b == self.wf(),
    {
        0 < self.cell && 0 <= self.gap && self.cell / 2 <= self.half && self.gap <= i32::MAX
            - self.cell && self.half <= i32::MAX - self.cell - self.gap
    }

    /// An axis from its three sizes, or `None` where they are not well formed.
    pub fn new(half: i32, cell: i32, gap: i32) -> (r: Option<Axis>)
        ensures
            r.is_some() <==> (Axis { half, cell, gap }).wf(),
            r.is_some() ==> r.unwrap() == (Axis { half, cell, gap }),
    {
        let axis = Axis { half, cell, gap };
        if axis.is_wf() {
            Some(axis)
        } else {
            None
        }
    }

    /// Whether the cells at the two ends have their centres between the
    /// clamp limits.
    pub fn edges_fit(&self) -> (b: bool)
        requires
            self.wf(),
        ensures
            b == self.spec_edges_fit(),
    {
        let lo: i32 = self.clamp(i32::MIN);
        let hi: i32 = self.clamp(i32::MAX);
        proof {
            self.lemma_snap_near_clamp(i32::MIN as int);
            self.lemma_snap_near_clamp(i32::MAX as int);
        }
        lo <= self.snap(lo) && self.snap(hi) <= hi
    }

    /// Pulls `c` into `[lo, hi]`.
    pub fn clamp(&self, c: i32) -> (r: i32)
        requires
            self.wf(),
        ensures
            r == self.spec_clamp(c as int),
    {
        let lo: i32 = self.cell / 2 - self.half;
        let hi: i32 = self.half - self.cell / 2;
        if c < lo {
            lo
        } else if c > hi {
            hi
        } else {
            c
        }
    }

    /// The index of the cell that holds the clamped coordinate.
    pub fn index_at(&self, c: i32) -> (k: i32)
        requires
            self.wf(),
        ensures
            k == self.spec_index(self.spec_clamp(c as int)),
            self.in_range(k as int),
    {
        let cc: i32 = self.clamp(c);
        let p: i32 = self.cell + self.gap;
        proof {
            self.lemma_snap_near_clamp(c as int);
        }
        match cc.checked_div_euclid(p) {
            Some(k) => k,
            None => 0,
        }
    }

    /// Whether `k` is the index of a cell of the field.
    pub fn holds_index(&self, k: i32) -> (b: bool)
        requires
            self.wf(),
        ensures
            b == self.in_range(k as int),
    {
        let first: i32 = self.index_at(i32::MIN);
        let last: i32 = self.index_at(i32::MAX);
        first <= k && k <= last
    }

    /// The centre of the cell with index `k`, for a cell of the field.
    pub fn center_at(&self, k: i32) -> (s: i32)
        requires
            self.wf(),
            self.in_range(k as int),
        ensures
            s == self.spec_center(k as int),
    {
        let p: i64 = self.cell as i64 + self.gap as i64;
        proof {
            let pi = self.pitch();
            let ki = k as int;
            self.lemma_index_brackets(self.lo());
            self.lemma_index_brackets(self.hi());
            let a = self.spec_index(self.lo());
            let b = self.spec_index(self.hi());
            lemma_mul_inequality(a, ki, pi);
            lemma_mul_inequality(ki, b, pi);
        }
        let s: i64 = k as i64 * p + p / 2;
        s as i32
    }

    /// Clamps `c` into the field and moves it to the centre of its cell.
    pub fn snap(&self, c: i32) -> (s: i32)
        requires
            self.wf(),
        ensures
            s == self.spec_snap(c as int),
    {
        let k: i32 = self.index_at(c);
        self.center_at(k)
    }
}

/// The field: one axis across and one axis up.
#[derive(Clone, Copy, Debug, PartialEq, Eq, Structural)]
pub struct FieldGeometry {
    pub x: Axis,
    pub y: Axis,
}

impl FieldGeometry {
    /// A field is well formed when both its axes are.
    pub open spec fn wf(self) -> bool {
        self.x.wf() && self.y.wf()
    }

    /// The point pulled into the field, each axis by itself.
    pub open spec fn spec_clamp(self, p: Point) -> Point {
        Point {
            x: self.x.spec_clamp(p.x as int) as i32,
            y: self.y.spec_clamp(p.y as int) as i32,
        }
    }

    /// The cell that holds the clamped point.
    pub open spec fn spec_cell_at(self, p: Point) -> Cell {
        Cell {
            column: self.x.spec_index(self.x.spec_clamp(p.x as int)) as i32,
            row: self.y.spec_index(self.y.spec_clamp(p.y as int)) as i32,
        }
    }

    /// Whether the cell is one that a clamped point can fall in.
    pub open spec fn contains_cell(self, cell: Cell) -> bool {
        self.x.in_range(cell.column as int) && self.y.in_range(cell.row as int)
    }

    /// The centre of a cell.
    pub open spec fn spec_center_of(self, cell: Cell) -> Point {
        Point {
            x: self.x.spec_center(cell.column as int) as i32,
            y: self.y.spec_center(cell.row as int) as i32,
        }
    }

    /// The centre of the cell that holds the clamped point.
    pub open spec fn spec_snap(self, p: Point) -> Point {
        Point { x: self.x.spec_snap(p.x as int) as i32, y: self.y.spec_snap(p.y as int) as i32 }
    }

    /// Whether `p` is the centre of a cell of the field: a point that
    /// snapping leaves where it is.
    pub open spec fn is_center(self, p: Point) -> bool {
        self.spec_snap(p) == p
    }

    /// Whether on both axes the end cells have their centres between the
    /// clamp limits.
    pub open spec fn spec_edges_fit(self) -> bool {
        self.x.spec_edges_fit() && self.y.spec_edges_fit()
    }

    /// Snapping is clamping, then taking the cell, then taking its centre.
    pub proof fn lemma_snap_is_center_of_cell(self, p: Point)
        requires
            self.wf(),
        ensures
            self.spec_snap(p) == self.spec_center_of(self.spec_cell_at(p)),
            self.contains_cell(self.spec_cell_at(p)),
    {
        self.x.lemma_snap_near_clamp(p.x as int);
        self.y.lemma_snap_near_clamp(p.y as int);
    }

    /// Snapping a snapped point returns the same point.
    pub proof fn lemma_snap_idempotent(self, p: Point)
        requires
            self.wf(),
        ensures
            self.spec_snap(self.spec_snap(p)) == self.spec_snap(p),
            self.is_center(self.spec_snap(p)),
    {
        self.x.lemma_snap_near_clamp(p.x as int);
        self.y.lemma_snap_near_clamp(p.y as int);
        self.x.lemma_snap_idempotent(p.x as int);
        self.y.lemma_snap_idempotent(p.y as int);
    }

    /// On every field a snapped point is less than one pitch away from the
    /// clamped point: at most half a pitch above it and less than half a
    /// pitch, rounded up, below it.
    pub proof fn lemma_snap_near_clamp(self, p: Point)
        requires
            self.wf(),
        ensures
            self.spec_clamp(p).x - self.x.pitch() < self.spec_snap(p).x - self.x.pitch() / 2
                <= self.spec_clamp(p).x,
            self.spec_clamp(p).y - self.y.pitch() < self.spec_snap(p).y - self.y.pitch() / 2
                <= self.spec_clamp(p).y,
            self.x.lo() <= self.spec_clamp(p).x <= self.x.hi(),
            self.y.lo() <= self.spec_clamp(p).y <= self.y.hi(),
    {
        self.x.lemma_snap_near_clamp(p.x as int);
        self.y.lemma_snap_near_clamp(p.y as int);
    }

    /// Where the end cells of both axes fit, every snapped point lies within
    /// the field's bounds less half a cell on each side. Without that
    /// condition the law fails: a clamp limit itself then snaps outside.
    pub proof fn lemma_snap_bounded(self, p: Point)
        requires
            self.wf(),
            self.spec_edges_fit(),
        ensures
            -self.x.half + self.x.cell / 2 <= self.spec_snap(p).x <= self.x.half - self.x.cell / 2,
            -self.y.half + self.y.cell / 2 <= self.spec_snap(p).y <= self.y.half - self.y.cell / 2,
    {
        self.x.lemma_snap_near_clamp(p.x as int);
        self.y.lemma_snap_near_clamp(p.y as int);
        self.x.lemma_snap_bounded(p.x as int);
        self.y.lemma_snap_bounded(p.y as int);
    }

    /// Whether both axes are well formed.
    pub fn is_wf(&self) -> (b: bool)
        ensures
            b == self.wf(),
    {
        self.x.is_wf() && self.y.is_wf()
    }

    /// A field from its half-extent, the size of a cell and the gap between
    /// cells, or `None` where an axis is not well formed.
    pub fn new(half_extent: Point, cell_size: Point, gap: Point) -> (r: Option<FieldGeometry>)
        ensures
            r.is_some() <==> (FieldGeometry {
                x: Axis { half: half_extent.x, cell: cell_size.x, gap: gap.x },
                y: Axis { half: half_extent.y, cell: cell_size.y, gap: gap.y },
            }).wf(),
            r.is_some() ==> r.unwrap() == (FieldGeometry {
                x: Axis { half: half_extent.x, cell: cell_size.x, gap: gap.x },
                y: Axis { half: half_extent.y, cell: cell_size.y, gap: gap.y },
            }),
    {
        match (
            Axis::new(half_extent.x, cell_size.x, gap.x),
            Axis::new(half_extent.y, cell_size.y, gap.y),
        ) {
            (Some(x), Some(y)) => Some(FieldGeometry { x, y }),
            _ => None,
        }
    }

    /// Whether on both axes the end cells fit between the clamp limits.
    pub fn edges_fit(&self) -> (b: bool)
        requires
            self.wf(),
        ensures
            b == self.spec_edges_fit(),
    {
        self.x.edges_fit() && self.y.edges_fit()
    }

    /// Pulls the point into the field, so that a tile centred on it keeps
    /// its whole footprint inside.
    pub fn clamp(&self, p: Point) -> (r: Point)
        requires
            self.wf(),
        ensures
            r == self.spec_clamp(p),
            self.x.lo() <= r.x <= self.x.hi(),
            self.y.lo() <= r.y <= self.y.hi(),
    {
        Point { x: self.x.clamp(p.x), y: self.y.clamp(p.y) }
    }

    /// The cell that holds the clamped point.
    pub fn cell_at(&self, p: Point) -> (cell: Cell)
        requires
            self.wf(),
        ensures
            cell == self.spec_cell_at(p),
            self.contains_cell(cell),
    {
        Cell { column: self.x.index_at(p.x), row: self.y.index_at(p.y) }
    }

    /// The centre of a cell of the field; `None` for a cell outside it.
    pub fn center_of(&self, cell: Cell) -> (r: Option<Point>)
        requires
            self.wf(),
        ensures
            r.is_some() <==> self.contains_cell(cell),
            r.is_some() ==> r.unwrap() == self.spec_center_of(cell),
            r.is_some() ==> self.is_center(r.unwrap()),
    {
        if self.x.holds_index(cell.column) && self.y.holds_index(cell.row) {
            let x: i32 = self.x.center_at(cell.column);
            let y: i32 = self.y.center_at(cell.row);
            proof {
                self.x.lemma_center_fixed(cell.column as int);
                self.y.lemma_center_fixed(cell.row as int);
            }
            Some(Point { x, y })
        } else {
            None
        }
    }

    /// Clamps the cursor into the field and snaps it to the centre of the
    /// cell it falls in.
    pub fn snap(&self, cursor: Point) -> (center: Point)
        requires
            self.wf(),
        ensures
            center == self.spec_snap(cursor),
            self.is_center(center),
    {
        proof {
            self.lemma_snap_idempotent(cursor);
        }
        Point { x: self.x.snap(cursor.x), y: self.y.snap(cursor.y) }
    }
}

} // verus!
