use vstd::prelude::*;
use crate::common::ToArray;

verus! {

/// A point of the integer lattice on which the scene's cubes stand.
#[derive(Clone, Copy, Debug, PartialEq, Eq, Structural)]
pub struct GridPoint {
    pub x: i32,
    pub y: i32,
    pub z: i32,
}

impl ToArray for GridPoint {
    type Output = [i32; 3];

    open spec fn array_of(&self) -> [i32; 3] {
        [self.x, self.y, self.z]
    }

    fn to_array(&self) -> (r: [i32; 3]) {
        [self.x, self.y, self.z]
    }
}

/// Cubes along each side of the grid the scene shows.
pub const ROW_CUBE_COUNT: usize = 3;

/// Distance between neighbouring cubes of the grid.
pub const CUBE_SPACING: i32 = 4;

/// Largest number of cubes along a side for which the grid is built; the
/// count of cubes and every coordinate then fit the machine's integers.
pub const MAX_ROW_CUBE_COUNT: usize = 1024;

/// Coordinate of the `k`-th cube along a side of `n` cubes: the grid is
/// centred on the origin, with `CUBE_SPACING` between cubes.
pub open spec fn grid_coord(n: int, k: int) -> int {
    CUBE_SPACING * k - (CUBE_SPACING / 2) * (n - 1)
}

/// Where the cube with side positions `a`, `b`, `c` stands in the grid's list.
pub open spec fn grid_slot(n: int, a: int, b: int, c: int) -> int {
    (a * n + b) * n + c
}

/// The cube of the grid at side positions `a`, `b`, `c`.
pub open spec fn grid_point(n: int, a: int, b: int, c: int) -> GridPoint {
    GridPoint { x: grid_coord(n, a) as i32, y: grid_coord(n, b) as i32, z: grid_coord(n, c) as i32 }
}

proof fn lemma_slot_bounds(n: int, a: int, b: int, c: int)
    requires
        0 <= a < n,
        0 <= b < n,
        0 <= c < n,
    ensures
        a * n * n <= grid_slot(n, a, b, c) < (a + 1) * n * n,
        (a * n + b) * n <= grid_slot(n, a, b, c) < (a * n + b + 1) * n,
        grid_slot(n, a, b, c) < n * n * n,
{
    assert(a * n * n <= (a * n + b) * n + c < (a + 1) * n * n) by (nonlinear_arith)
        requires 0 <= a < n, 0 <= b < n, 0 <= c < n;
    assert((a * n + b) * n <= (a * n + b) * n + c < (a * n + b + 1) * n) by (nonlinear_arith)
        requires 0 <= c < n;
    assert((a + 1) * n * n <= n * n * n) by (nonlinear_arith)
        requires a < n, 0 <= n;
}

/// The cubes of a grid of `n` cubes along each side, centred on the origin,
/// in order of x, then y, then z; no cubes when `n` is zero.
pub fn cube_grid(n: usize) -> (r: Vec<GridPoint>)
    requires
        n <= MAX_ROW_CUBE_COUNT,
    ensures
        r.len() == n * n * n,
        forall|a: int, b: int, c: int| 0 <= a < n && 0 <= b < n && 0 <= c < n ==>
            r[#[trigger] grid_slot(n as int, a, b, c)] == grid_point(n as int, a, b, c),
{
    if n == 0 {
        return Vec::new();
    }
    let ghost ni = n as int;
    assert(n * n <= MAX_ROW_CUBE_COUNT * MAX_ROW_CUBE_COUNT) by (nonlinear_arith)
        requires n <= MAX_ROW_CUBE_COUNT;
    assert(n * n * n <= MAX_ROW_CUBE_COUNT * MAX_ROW_CUBE_COUNT * MAX_ROW_CUBE_COUNT) by (nonlinear_arith)
        requires n <= MAX_ROW_CUBE_COUNT;
    let count: usize = n * n * n;
    let start: i32 = -((CUBE_SPACING / 2) * ((n - 1) as i32));
    let mut points: Vec<GridPoint> = Vec::with_capacity(count);
    let mut a: usize = 0;
    while a < n
        invariant
            1 <= n <= MAX_ROW_CUBE_COUNT,
            ni == n,
            a <= n,
            start == grid_coord(ni, 0),
            points.len() == a * n * n,
            forall|a2: int, b2: int, c2: int| 0 <= a2 < a && 0 <= b2 < n && 0 <= c2 < n ==>
                points[#[trigger] grid_slot(ni, a2, b2, c2)] == grid_point(ni, a2, b2, c2),
        decreases n - a,
    {
        let x: i32 = start + CUBE_SPACING * (a as i32);
        let mut b: usize = 0;
        while b < n
            invariant
                1 <= n <= MAX_ROW_CUBE_COUNT,
                ni == n,
                a < n,
                b <= n,
                x == grid_coord(ni, a as int),
                start == grid_coord(ni, 0),
                points.len() == (a * n + b) * n,
                forall|a2: int, b2: int, c2: int| 0 <= a2 < a && 0 <= b2 < n && 0 <= c2 < n ==>
                    points[#[trigger] grid_slot(ni, a2, b2, c2)] == grid_point(ni, a2, b2, c2),
                forall|b2: int, c2: int| 0 <= b2 < b && 0 <= c2 < n ==>
                    points[#[trigger] grid_slot(ni, a as int, b2, c2)] == grid_point(ni, a as int, b2, c2),
            decreases n - b,
        {
            let y: i32 = start + CUBE_SPACING * (b as i32);
            let mut c: usize = 0;
            while c < n
                invariant
                    1 <= n <= MAX_ROW_CUBE_COUNT,
                    ni == n,
                    a < n,
                    b < n,
                    c <= n,
                    x == grid_coord(ni, a as int),
                    y == grid_coord(ni, b as int),
                    start == grid_coord(ni, 0),
                    points.len() == (a * n + b) * n + c,
                    forall|a2: int, b2: int, c2: int| 0 <= a2 < a && 0 <= b2 < n && 0 <= c2 < n ==>
                        points[#[trigger] grid_slot(ni, a2, b2, c2)] == grid_point(ni, a2, b2, c2),
                    forall|b2: int, c2: int| 0 <= b2 < b && 0 <= c2 < n ==>
                        points[#[trigger] grid_slot(ni, a as int, b2, c2)] == grid_point(ni, a as int, b2, c2),
                    forall|c2: int| 0 <= c2 < c ==>
                        points[#[trigger] grid_slot(ni, a as int, b as int, c2)] == grid_point(ni, a as int, b as int, c2),
                decreases n - c,
            {
                let z: i32 = start + CUBE_SPACING * (c as i32);
                let ghost old_points = points@;
                points.push(GridPoint { x, y, z });
                proof {
                    assert forall|a2: int, b2: int, c2: int| 0 <= a2 < a && 0 <= b2 < n && 0 <= c2 < n implies
                        points[#[trigger] grid_slot(ni, a2, b2, c2)] == grid_point(ni, a2, b2, c2) by {
                        lemma_slot_bounds(ni, a2, b2, c2);
                        assert((a2 + 1) * ni * ni <= a * ni * ni) by (nonlinear_arith)
                            requires a2 < a, 0 <= ni;
                        assert(a * ni * ni <= (a * ni + b) * ni) by (nonlinear_arith)
                            requires 0 <= b, 0 <= ni;
                        assert(old_points[grid_slot(ni, a2, b2, c2)] == grid_point(ni, a2, b2, c2));
                    }
                    assert forall|b2: int, c2: int| 0 <= b2 < b && 0 <= c2 < n implies
                        points[#[trigger] grid_slot(ni, a as int, b2, c2)] == grid_point(ni, a as int, b2, c2) by {
                        lemma_slot_bounds(ni, a as int, b2, c2);
                        assert((a * ni + b2 + 1) * ni <= (a * ni + b) * ni) by (nonlinear_arith)
                            requires b2 < b, 0 <= ni;
                        assert(old_points[grid_slot(ni, a as int, b2, c2)] == grid_point(ni, a as int, b2, c2));
                    }
                    assert forall|c2: int| 0 <= c2 <= c implies
                        points[#[trigger] grid_slot(ni, a as int, b as int, c2)] == grid_point(ni, a as int, b as int, c2) by {
                        if c2 < c {
                            assert(old_points[grid_slot(ni, a as int, b as int, c2)] == grid_point(ni, a as int, b as int, c2));
                        }
                    }
                    lemma_slot_bounds(ni, a as int, b as int, c as int);
                }
                c = c + 1;
            }
            proof {
                assert((a * ni + b) * ni + ni == (a * ni + b + 1) * ni) by (nonlinear_arith);
            }
            b = b + 1;
        }
        proof {
            assert((a * ni + ni) * ni == (a + 1) * ni * ni) by (nonlinear_arith);
        }
        a = a + 1;
    }
    points
}

} // verus!
