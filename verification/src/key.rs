//! The cell key: one integer for every cell of the field.
//!
//! A key is built from the quadrant of the cell's centre and the magnitudes
//! of its two coordinates. Keys of different cells differ as long as the
//! field's pitch and bounds agree with the widths of the three parts.

use vstd::prelude::*;
use vstd::arithmetic::div_mod::lemma_mod_multiples_basic;
use crate::geometry::{Axis, Cell, FieldGeometry, Point};

verus! {

/// The key of a cell.
pub type CellKey = i64;

/// The weight of the quadrant in a key.
pub const QUADRANT_UNIT: i64 = 10_000_000;

/// The weight of the horizontal magnitude in a key.
pub const X_UNIT: i64 = 1_000_000;

/// The weight of the vertical magnitude in a key.
pub const Y_UNIT: i64 = 1_000;

/// The quadrant of a point: 1 where both coordinates are positive, 2 where
/// only `y` is, 4 where only `x` is, 3 where neither is. A coordinate of
/// exactly zero counts as not positive.
pub open spec fn spec_quadrant(p: Point) -> int {
    if p.x > 0 {
        if p.y > 0 {
            1
        } else {
            4
        }
    } else {
        if p.y > 0 {
            2
        } else {
            3
        }
    }
}

/// The magnitude of a coordinate.
pub open spec fn spec_magnitude(v: int) -> int {
    if v < 0 {
        -v
    } else {
        v
    }
}

/// The key of the cell centred on `p`.
pub open spec fn spec_encode(p: Point) -> int {
    spec_quadrant(p) * 10_000_000 + spec_magnitude(p.x as int) * 1_000_000 + spec_magnitude(
        p.y as int,
    ) * 1_000
}

/// Whether cells that are a whole number of pitches apart, or mirror images
/// of such cells, can never make up the difference between two quadrants.
/// The quadrants are 10, 20 or 30 horizontal units apart, and the mirror
/// image of a centre is off by one unit where the pitch is odd.
pub open spec fn pitch_separates_quadrants(pitch: int) -> bool {
    let odd = pitch % 2;
    &&& 10int % pitch != 0
    &&& 30int % pitch != 0
    &&& (10int - odd) % pitch != 0
    &&& (10int + odd) % pitch != 0
    &&& (20int - odd) % pitch != 0
    &&& (20int + odd) % pitch != 0
}

/// A sufficient condition for the keys of the field's cells to differ: every
/// row centre has a magnitude under 1000, so that the vertical part never
/// reaches into the horizontal part, and the horizontal pitch keeps the
/// quadrants apart.
pub open spec fn spec_key_safe(g: FieldGeometry) -> bool {
    &&& -1000 < g.y.spec_snap(g.y.lo())
    &&& g.y.spec_snap(g.y.hi()) < 1000
    &&& pitch_separates_quadrants(g.x.pitch())
}

/// No multiple of `p` equals `e` or `-e` when `p` does not divide `e`.
proof fn lemma_not_a_multiple(n: int, p: int, e: int)
    requires
        p > 0,
        e % p != 0,
    ensures
        n * p != e,
        n * p != -e,
{
    lemma_mod_multiples_basic(n, p);
    lemma_mod_multiples_basic(-n, p);
    assert((-n) * p == -(n * p)) by (nonlinear_arith);
}

/// Two column centres, taken with the quadrants of their points, give
/// different horizontal parts unless quadrant and centre are the same.
proof fn lemma_horizontal_part_injective(axis: Axis, ka: int, kb: int, a: Point, b: Point)
    requires
        axis.pitch() > 0,
        pitch_separates_quadrants(axis.pitch()),
        a.x == axis.spec_center(ka),
        b.x == axis.spec_center(kb),
        spec_quadrant(a) * 10 + spec_magnitude(a.x as int) == spec_quadrant(b) * 10
            + spec_magnitude(b.x as int),
    ensures
        a.x == b.x,
        spec_quadrant(a) == spec_quadrant(b),
{
    let p = axis.pitch();
    let odd = p % 2;
    // Two centres on the same side of zero differ by a multiple of the pitch.
    assert((ka - kb) * p == ka * p - kb * p) by (nonlinear_arith);
    lemma_not_a_multiple(ka - kb, p, 10);
    lemma_not_a_multiple(ka - kb, p, 30);
    // The magnitudes of two centres on different sides add up to a multiple
    // of the pitch, less one where the pitch is odd.
    assert((ka + kb + 1) * p == ka * p + kb * p + p) by (nonlinear_arith);
    lemma_not_a_multiple(ka + kb + 1, p, 10 - odd);
    lemma_not_a_multiple(ka + kb + 1, p, 10 + odd);
    lemma_not_a_multiple(ka + kb + 1, p, 20 - odd);
    lemma_not_a_multiple(ka + kb + 1, p, 20 + odd);
}

/// Key injectivity over points: on a key-safe field two cell centres with
/// the same key are the same point.
pub proof fn lemma_encode_injective(g: FieldGeometry, a: Point, b: Point)
    requires
        g.wf(),
        spec_key_safe(g),
        g.is_center(a),
        g.is_center(b),
        spec_encode(a) == spec_encode(b),
    ensures
        a == b,
{
    g.x.lemma_snap_near_clamp(a.x as int);
    g.x.lemma_snap_near_clamp(b.x as int);
    g.y.lemma_snap_between_ends(a.y as int);
    g.y.lemma_snap_between_ends(b.y as int);
    g.y.lemma_snap_near_clamp(a.y as int);
    g.y.lemma_snap_near_clamp(b.y as int);
    let ka = g.x.spec_index(g.x.spec_clamp(a.x as int));
    let kb = g.x.spec_index(g.x.spec_clamp(b.x as int));
    lemma_horizontal_part_injective(g.x, ka, kb, a, b);
}

/// Key injectivity over cells: on a key-safe field two different cells of
/// the field have different keys.
pub proof fn lemma_distinct_cells_distinct_keys(g: FieldGeometry, c1: Cell, c2: Cell)
    requires
        g.wf(),
        spec_key_safe(g),
        g.contains_cell(c1),
        g.contains_cell(c2),
        c1 != c2,
    ensures
        spec_encode(g.spec_center_of(c1)) != spec_encode(g.spec_center_of(c2)),
{
    let a = g.spec_center_of(c1);
    let b = g.spec_center_of(c2);
    g.x.lemma_center_fixed(c1.column as int);
    g.x.lemma_center_fixed(c2.column as int);
    g.y.lemma_center_fixed(c1.row as int);
    g.y.lemma_center_fixed(c2.row as int);
    if spec_encode(a) == spec_encode(b) {
        lemma_encode_injective(g, a, b);
        g.x.lemma_index_of_center(c1.column as int);
        g.x.lemma_index_of_center(c2.column as int);
        g.y.lemma_index_of_center(c1.row as int);
        g.y.lemma_index_of_center(c2.row as int);
    }
}

/// The quadrant of a point, from 1 to 4.
pub fn quadrant(p: Point) -> (q: u8)
    ensures
        q == spec_quadrant(p),
{
    if p.x > 0 {
        if p.y > 0 {
            1
        } else {
            4
        }
    } else {
        if p.y > 0 {
            2
        } else {
            3
        }
    }
}

/// The magnitude of a coordinate.
pub fn magnitude(v: i32) -> (m: i64)
    ensures
        m == spec_magnitude(v as int),
{
    let wide: i64 = v as i64;
    if wide < 0 {
        -wide
    } else {
        wide
    }
}

/// The key of the cell centred on `center`.
pub fn encode(center: Point) -> (key: CellKey)
    ensures
        key == spec_encode(center),
{
    let q: i64 = quadrant(center) as i64;
    q * QUADRANT_UNIT + magnitude(center.x) * X_UNIT + magnitude(center.y) * Y_UNIT
}

/// Whether the field meets the condition under which the keys of its cells
/// differ.
pub fn is_key_safe(g: &FieldGeometry) -> (b: bool)
    requires
        g.wf(),
    ensures
        b == spec_key_safe(*g),
{
    let p: i32 = g.x.cell + g.x.gap;
    let odd: i32 = p % 2;
    let lowest: i32 = g.y.snap(i32::MIN);
    let highest: i32 = g.y.snap(i32::MAX);
    -1000 < lowest && highest < 1000 && 10 % p != 0 && 30 % p != 0 && (10 - odd) % p != 0 && (10
        + odd) % p != 0 && (20 - odd) % p != 0 && (20 + odd) % p != 0
}

} // verus!
