//! Where the cubes stand: a square field centred at the origin, every grid
//! point of it taken once, six world units apart.

use vstd::prelude::*;

verus! {

/// A point in world units.
#[derive(Clone, Copy, PartialEq, Eq, Structural, Debug)]
pub struct Position {
    pub x: i32,
    pub y: i32,
    pub z: i32,
}

/// The side of the field, counted from the centre outwards.
pub const FIELD_SIZE: i32 = 30;

/// World units between neighbouring grid points.
pub const SPACING: i32 = 6;

/// The largest field whose outermost points still have `i32` coordinates.
pub const MAX_FIELD_SIZE: i32 = 357_913_941;

/// The world position of the grid point `(i, j)`.
pub open spec fn world(i: int, j: int) -> Position {
    Position { x: (SPACING * i) as i32, y: (SPACING * j) as i32, z: 0 }
}

/// A grid point of the upper right quadrant with its mirror images: the
/// origin alone, a point on an axis with its opposite, any other point with
/// all four combinations of signs.
pub open spec fn cell(i: int, j: int) -> Seq<Position> {
    if i == 0 && j == 0 {
        seq![world(0, 0)]
    } else if j == 0 {
        seq![world(i, 0), world(-i, 0)]
    } else if i == 0 {
        seq![world(0, j), world(0, -j)]
    } else {
        seq![world(i, j), world(-i, j), world(i, -j), world(-i, -j)]
    }
}

/// The cells `(i, 0)` to `(i, width - 1)`, in that order.
pub open spec fn row(i: int, width: int) -> Seq<Position>
    decreases width,
{
    if width <= 0 {
        Seq::empty()
    } else {
        row(i, width - 1) + cell(i, width - 1)
    }
}

/// The first `rows` rows of a field of side `n`.
pub open spec fn field(n: int, rows: int) -> Seq<Position>
    decreases rows,
{
    if rows <= 0 {
        Seq::empty()
    } else {
        field(n, rows - 1) + row(rows - 1, n)
    }
}

/// All positions of a field of side `n`, in the order in which the cubes
/// are built, updated and drawn.
pub open spec fn placement(n: int) -> Seq<Position> {
    field(n, n)
}

/// How often `p` occurs in `s`.
pub open spec fn occurrences(s: Seq<Position>, p: Position) -> nat
    decreases s.len(),
{
    if s.len() == 0 {
        0
    } else {
        occurrences(s.drop_last(), p) + if s.last() == p {
            1nat
        } else {
            0nat
        }
    }
}

/// `p` is a grid point of the field of side `n`: in the plane, a multiple of
/// the spacing in both directions, and less than `n` points from the centre.
pub open spec fn in_field(p: Position, n: int) -> bool {
    &&& p.z == 0
    &&& p.x % 6 == 0
    &&& p.y % 6 == 0
    &&& -6 * n < p.x < 6 * n
    &&& -6 * n < p.y < 6 * n
}

/// The number of positions of a field of side `n`.
pub open spec fn field_count(n: int) -> int {
    if n <= 0 {
        0
    } else {
        (2 * n - 1) * (2 * n - 1)
    }
}

pub fn make_position(x: i32, y: i32, z: i32) -> (p: Position)
    requires
        -MAX_FIELD_SIZE <= x <= MAX_FIELD_SIZE,
        -MAX_FIELD_SIZE <= y <= MAX_FIELD_SIZE,
        -MAX_FIELD_SIZE <= z <= MAX_FIELD_SIZE,
    ensures
        p.x == 6 * x,
        p.y == 6 * y,
        p.z == 6 * z,
{
    Position { x: SPACING * x, y: SPACING * y, z: SPACING * z }
}

/// The positions of a field of side `field_size`, row by row.
pub fn grid_positions(field_size: i32) -> (positions: Vec<Position>)
    requires
        0 <= field_size <= MAX_FIELD_SIZE,
    ensures
        positions@ == placement(field_size as int),
{
    let mut positions: Vec<Position> = Vec::new();
    let z: i32 = 0;
    let mut i: i32 = 0;
    while i < field_size
        invariant
            0 <= i <= field_size <= MAX_FIELD_SIZE,
            z == 0,
            positions@ == field(field_size as int, i as int),
        decreases field_size - i,
    {
        let mut j: i32 = 0;
        while j < field_size
            invariant
                0 <= i < field_size <= MAX_FIELD_SIZE,
                0 <= j <= field_size,
                z == 0,
                positions@ == field(field_size as int, i as int) + row(i as int, j as int),
            decreases field_size - j,
        {
            let ghost before = positions@;
            if i == 0 && j == 0 {
                positions.push(make_position(0, 0, z));
            } else if j == 0 {
                positions.push(make_position(i, 0, z));
                positions.push(make_position(-i, 0, z));
            } else if i == 0 {
                positions.push(make_position(0, j, z));
                positions.push(make_position(0, -j, z));
            } else {
                positions.push(make_position(i, j, z));
                positions.push(make_position(-i, j, z));
                positions.push(make_position(i, -j, z));
                positions.push(make_position(-i, -j, z));
            }
            proof {
                assert(positions@ =~= before + cell(i as int, j as int));
                assert(positions@ =~= field(field_size as int, i as int) + row(
                    i as int,
                    j as int + 1,
                ));
            }
            j = j + 1;
        }
        i = i + 1;
    }
    positions
}

proof fn lemma_occurrences_concat(s: Seq<Position>, t: Seq<Position>, p: Position)
    ensures
        occurrences(s + t, p) == occurrences(s, p) + occurrences(t, p),
    decreases t.len(),
{
    if t.len() == 0 {
        assert(s + t =~= s);
    } else {
        assert((s + t).drop_last() =~= s + t.drop_last());
        lemma_occurrences_concat(s, t.drop_last(), p);
    }
}

proof fn lemma_occurrences_push(s: Seq<Position>, x: Position, p: Position)
    ensures
        occurrences(s.push(x), p) == occurrences(s, p) + if x == p {
            1nat
        } else {
            0nat
        },
{
    assert(s.push(x).drop_last() =~= s);
}

/// The point on the grid that `p` mirrors into the upper right quadrant is
/// `(i, j)`.
pub open spec fn mirrors(p: Position, i: int, j: int) -> bool {
    &&& p.z == 0
    &&& (p.x == 6 * i || p.x == -6 * i)
    &&& (p.y == 6 * j || p.y == -6 * j)
}

proof fn lemma_cell_occurrences(i: int, j: int, p: Position)
    requires
        0 <= i < MAX_FIELD_SIZE,
        0 <= j < MAX_FIELD_SIZE,
    ensures
        occurrences(cell(i, j), p) == if mirrors(p, i, j) {
            1nat
        } else {
            0nat
        },
        cell(i, j).len() == if i == 0 && j == 0 {
            1nat
        } else if i == 0 || j == 0 {
            2nat
        } else {
            4nat
        },
{
    let e = Seq::<Position>::empty();
    let a = world(i, j);
    let b = world(-i, j);
    let c = world(i, -j);
    let d = world(-i, -j);
    assert(a.x == 6 * i && a.y == 6 * j);
    assert(d.x == -6 * i && d.y == -6 * j);
    lemma_occurrences_push(e, a, p);
    if i == 0 && j == 0 {
        assert(cell(i, j) =~= e.push(a));
    } else if j == 0 {
        lemma_occurrences_push(e.push(a), b, p);
        assert(cell(i, j) =~= e.push(a).push(b));
    } else if i == 0 {
        lemma_occurrences_push(e.push(a), c, p);
        assert(cell(i, j) =~= e.push(a).push(c));
    } else {
        lemma_occurrences_push(e.push(a), b, p);
        lemma_occurrences_push(e.push(a).push(b), c, p);
        lemma_occurrences_push(e.push(a).push(b).push(c), d, p);
        assert(cell(i, j) =~= e.push(a).push(b).push(c).push(d));
    }
}

proof fn lemma_row(i: int, width: int, p: Position)
    requires
        0 <= i < MAX_FIELD_SIZE,
        0 <= width <= MAX_FIELD_SIZE,
    ensures
        occurrences(row(i, width), p) == if p.z == 0 && (p.x == 6 * i || p.x == -6 * i) && p.y % 6
            == 0 && -6 * width < p.y < 6 * width {
            1nat
        } else {
            0nat
        },
        row(i, width).len() == if width == 0 {
            0
        } else if i == 0 {
            2 * width - 1
        } else {
            2 * (2 * width - 1)
        },
    decreases width,
{
    if width > 0 {
        lemma_row(i, width - 1, p);
        lemma_cell_occurrences(i, width - 1, p);
        lemma_occurrences_concat(row(i, width - 1), cell(i, width - 1), p);
    }
}

proof fn lemma_field(n: int, rows: int, p: Position)
    requires
        0 <= rows <= n <= MAX_FIELD_SIZE,
    ensures
        occurrences(field(n, rows), p) == if in_field(p, n) && -6 * rows < p.x < 6 * rows {
            1nat
        } else {
            0nat
        },
        field(n, rows).len() == if rows == 0 {
            0
        } else {
            (2 * rows - 1) * (2 * n - 1)
        },
    decreases rows,
{
    if rows > 0 {
        lemma_field(n, rows - 1, p);
        lemma_row(rows - 1, n, p);
        lemma_occurrences_concat(field(n, rows - 1), row(rows - 1, n), p);
        let m = 2 * n - 1;
        assert(field(n, rows).len() == field(n, rows - 1).len() + row(rows - 1, n).len());
        if rows == 1 {
            assert((2 * rows - 1) * m == m) by (nonlinear_arith)
                requires
                    rows == 1,
            ;
        } else {
            assert((2 * (rows - 1) - 1) * m + 2 * m == (2 * rows - 1) * m) by (nonlinear_arith);
        }
    }
}

/// Every grid point of the field stands in the placement exactly once, and
/// nothing else stands in it: the origin once, a point on an axis and its
/// opposite once each, and all four mirror images of any other point once
/// each.
pub proof fn lemma_placement_takes_each_point_once(n: int, p: Position)
    requires
        0 <= n <= MAX_FIELD_SIZE,
    ensures
        occurrences(placement(n), p) == if in_field(p, n) {
            1nat
        } else {
            0nat
        },
{
    lemma_field(n, n, p);
}

proof fn lemma_occurs_at_least_once(s: Seq<Position>, k: int)
    requires
        0 <= k < s.len(),
    ensures
        occurrences(s, s[k]) >= 1,
    decreases s.len(),
{
    if k < s.len() - 1 {
        lemma_occurs_at_least_once(s.drop_last(), k);
    }
}

/// Every position of the placement is a grid point of the field: a whole
/// multiple of the spacing in `x` and `y`, in the plane `z = 0`.
pub proof fn lemma_placed_positions_are_grid_points(n: int, k: int)
    requires
        0 <= n <= MAX_FIELD_SIZE,
        0 <= k < placement(n).len(),
    ensures
        in_field(placement(n)[k], n),
{
    lemma_occurs_at_least_once(placement(n), k);
    lemma_placement_takes_each_point_once(n, placement(n)[k]);
}

/// A field of side `n` has `(2n - 1)^2` positions; the field of side 30 has
/// 3481.
pub proof fn lemma_placement_count(n: int)
    requires
        0 <= n <= MAX_FIELD_SIZE,
    ensures
        placement(n).len() == field_count(n),
        n == FIELD_SIZE ==> placement(n).len() == 3481,
{
    lemma_field(n, n, world(0, 0));
    if n == FIELD_SIZE {
        assert((2 * n - 1) * (2 * n - 1) == 3481) by (nonlinear_arith)
            requires
                n == 30,
        ;
    }
}

/// The position at a grid point, mirrored or not, is six times its grid
/// coordinates and lies in the plane, and it stands in the placement.
pub proof fn lemma_grid_point_is_placed(n: int, a: int, b: int)
    requires
        0 <= n <= MAX_FIELD_SIZE,
        -n < a < n,
        -n < b < n,
    ensures
        world(a, b).x == 6 * a,
        world(a, b).y == 6 * b,
        world(a, b).z == 0,
        occurrences(placement(n), world(a, b)) == 1,
{
    lemma_placement_takes_each_point_once(n, world(a, b));
}

}
