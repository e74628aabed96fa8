//! The grid of cells, the order in which it is traversed, and what a
//! traversal keeps.

use vstd::prelude::*;
use vstd::arithmetic::div_mod::{
    lemma_div_pos_is_pos, lemma_fundamental_div_mod, lemma_fundamental_div_mod_converse,
    lemma_mod_bound,
};
use crate::rules::occupied;
use crate::shapes::{Shape, ShapeType};

verus! {

/// The number of cells of the grid of `shape`.
pub open spec fn cell_count(shape: Shape) -> nat {
    (shape.width * shape.height * shape.depth) as nat
}

/// Whether `cell` is a cell of the grid of `shape`.
pub open spec fn in_grid(shape: Shape, cell: (int, int, int)) -> bool {
    &&& 0 <= cell.0 < shape.width
    &&& 0 <= cell.1 < shape.height
    &&& 0 <= cell.2 < shape.depth
}

/// The position of `cell` in the traversal: `x` varies slowest, `z` fastest.
pub open spec fn cell_index(shape: Shape, cell: (int, int, int)) -> int {
    (cell.0 * shape.height + cell.1) * shape.depth + cell.2
}

/// The cell at position `k` of the traversal.
pub open spec fn cell_at(shape: Shape, k: int) -> (int, int, int) {
    let column = k / (shape.depth as int);
    (column / (shape.height as int), column % (shape.height as int), k % (shape.depth as int))
}

/// All cells of the grid in traversal order.
pub open spec fn traversal(shape: Shape) -> Seq<(int, int, int)> {
    Seq::new(cell_count(shape), |k: int| cell_at(shape, k))
}

/// The voxel that stands for a cell.
pub open spec fn voxel_of(cell: (int, int, int)) -> (i32, i32, i32) {
    (cell.0 as i32, cell.1 as i32, cell.2 as i32)
}

/// The voxels of the occupied cells among the first `n` of the traversal, in order.
pub(crate) open spec fn rasterize_prefix(shape: Shape, n: int) -> Seq<(i32, i32, i32)> {
    traversal(shape).take(n).filter(|cell: (int, int, int)| occupied(shape, cell)).map_values(
        |cell: (int, int, int)| voxel_of(cell),
    )
}

/// The voxel sequence of `shape`: the occupied cells of its grid in traversal order.
pub open spec fn rasterize(shape: Shape) -> Seq<(i32, i32, i32)> {
    traversal(shape).filter(|cell: (int, int, int)| occupied(shape, cell)).map_values(
        |cell: (int, int, int)| voxel_of(cell),
    )
}

/// Whether every index of the grid of `shape` fits a signed voxel coordinate.
pub open spec fn coordinates_fit(shape: Shape) -> bool {
    &&& shape.width <= 0x8000_0000
    &&& shape.height <= 0x8000_0000
    &&& shape.depth <= 0x8000_0000
}

/// The cube with the dimensions of `shape`.
pub open spec fn cube_of(shape: Shape) -> Shape {
    Shape { shape_type: ShapeType::Cube, ..shape }
}

/// The cell that a voxel stands for.
pub open spec fn cell_of(voxel: (i32, i32, i32)) -> (int, int, int) {
    (voxel.0 as int, voxel.1 as int, voxel.2 as int)
}

/// A cell of the grid has a position below the cell count.
pub proof fn lemma_cell_index_bounds(shape: Shape, cell: (int, int, int))
    requires
        in_grid(shape, cell),
    ensures
        0 <= cell_index(shape, cell) < cell_count(shape),
{
    let (w, h, d) = (shape.width as int, shape.height as int, shape.depth as int);
    let (x, y, z) = cell;
    assert(0 <= (x * h + y) * d + z < w * h * d) by (nonlinear_arith)
        requires
            0 <= x < w,
            0 <= y < h,
            0 <= z < d,
    ;
}

/// `cell_at` undoes `cell_index` on the grid.
pub proof fn lemma_cell_at_index(shape: Shape, cell: (int, int, int))
    requires
        in_grid(shape, cell),
    ensures
        cell_at(shape, cell_index(shape, cell)) == cell,
{
    let (h, d) = (shape.height as int, shape.depth as int);
    let (x, y, z) = cell;
    let column = x * h + y;
    lemma_fundamental_div_mod_converse(column * d + z, d, column, z);
    lemma_fundamental_div_mod_converse(column, h, x, y);
}

/// `cell_index` undoes `cell_at` below the cell count, and the cell lies in the grid.
pub proof fn lemma_index_of_cell_at(shape: Shape, k: int)
    requires
        0 <= k < cell_count(shape),
    ensures
        in_grid(shape, cell_at(shape, k)),
        cell_index(shape, cell_at(shape, k)) == k,
{
    let (w, h, d) = (shape.width as int, shape.height as int, shape.depth as int);
    assert(w > 0 && h > 0 && d > 0) by (nonlinear_arith)
        requires
            0 < w * h * d,
            w >= 0,
            h >= 0,
            d >= 0,
    ;
    let column = k / d;
    lemma_fundamental_div_mod(k, d);
    lemma_mod_bound(k, d);
    lemma_div_pos_is_pos(k, d);
    lemma_fundamental_div_mod(column, h);
    lemma_mod_bound(column, h);
    lemma_div_pos_is_pos(column, h);
    let (x, y, z) = cell_at(shape, k);
    assert(k == (x * h + y) * d + z) by (nonlinear_arith)
        requires
            k == d * column + z,
            column == h * x + y,
    ;
    assert(x < w) by (nonlinear_arith)
        requires
            (x * h + y) * d + z < w * h * d,
            0 <= y,
            0 <= z,
            h > 0,
            d > 0,
            x >= 0,
    ;
}

/// Scanning one more cell appends its voxel exactly when the cell is occupied.
pub(crate) proof fn lemma_prefix_step(shape: Shape, k: int)
    requires
        0 <= k < cell_count(shape),
    ensures
        rasterize_prefix(shape, k + 1) == (if occupied(shape, cell_at(shape, k)) {
            rasterize_prefix(shape, k).push(voxel_of(cell_at(shape, k)))
        } else {
            rasterize_prefix(shape, k)
        }),
{
    let keep = |cell: (int, int, int)| occupied(shape, cell);
    let to_voxel = |cell: (int, int, int)| voxel_of(cell);
    let before = traversal(shape).take(k);
    let cell = cell_at(shape, k);
    assert(traversal(shape).take(k + 1) =~= before.push(cell));
    before.lemma_filter_push(cell, keep);
    if occupied(shape, cell) {
        assert(before.filter(keep).push(cell).map_values(to_voxel) =~= before.filter(
            keep,
        ).map_values(to_voxel).push(voxel_of(cell)));
    }
}

/// Nothing is kept before the traversal starts; all of it is kept at its end.
pub(crate) proof fn lemma_prefix_ends(shape: Shape)
    ensures
        rasterize_prefix(shape, 0) == Seq::<(i32, i32, i32)>::empty(),
        rasterize_prefix(shape, cell_count(shape) as int) == rasterize(shape),
{
    let keep = |cell: (int, int, int)| occupied(shape, cell);
    reveal(Seq::filter);
    assert(traversal(shape).take(0).filter(keep) =~= Seq::<(int, int, int)>::empty());
    assert(rasterize_prefix(shape, 0) =~= Seq::<(i32, i32, i32)>::empty());
    assert(traversal(shape).take(cell_count(shape) as int) =~= traversal(shape));
}

/// Scanning a run of unoccupied cells keeps nothing.
pub(crate) proof fn lemma_prefix_skip(shape: Shape, from: int, to: int)
    requires
        0 <= from <= to <= cell_count(shape),
        forall|k: int| from <= k < to ==> !occupied(shape, #[trigger] cell_at(shape, k)),
    ensures
        rasterize_prefix(shape, to) == rasterize_prefix(shape, from),
    decreases to - from,
{
    if from < to {
        lemma_prefix_skip(shape, from, to - 1);
        lemma_prefix_step(shape, to - 1);
    }
}

/// Scanning the cell `(x, y, z)` of the grid appends its voxel exactly when
/// the cell is occupied.
pub(crate) proof fn lemma_scan_cell(shape: Shape, cell: (int, int, int))
    requires
        in_grid(shape, cell),
    ensures
        0 <= cell_index(shape, cell) < cell_count(shape),
        rasterize_prefix(shape, cell_index(shape, cell) + 1) == (if occupied(shape, cell) {
            rasterize_prefix(shape, cell_index(shape, cell)).push(voxel_of(cell))
        } else {
            rasterize_prefix(shape, cell_index(shape, cell))
        }),
{
    lemma_cell_index_bounds(shape, cell);
    lemma_cell_at_index(shape, cell);
    lemma_prefix_step(shape, cell_index(shape, cell));
}

/// The traversal starts at the origin; where a row ends the next row begins,
/// where a slab ends the next slab begins, and the traversal ends after the
/// last slab.
pub(crate) proof fn lemma_index_carry(shape: Shape, x: int, y: int)
    ensures
        cell_index(shape, (0, 0, 0)) == 0,
        cell_index(shape, (x, y, shape.depth as int)) == cell_index(shape, (x, y + 1, 0)),
        cell_index(shape, (x, shape.height as int, 0)) == cell_index(shape, (x + 1, 0, 0)),
        cell_index(shape, (shape.width as int, 0, 0)) == cell_count(shape),
{
    let (w, h, d) = (shape.width as int, shape.height as int, shape.depth as int);
    assert((0 * h + 0) * d + 0 == 0) by (nonlinear_arith);
    assert((x * h + y) * d + d == (x * h + (y + 1)) * d + 0) by (nonlinear_arith);
    assert((x * h + h) * d + 0 == ((x + 1) * h + 0) * d + 0) by (nonlinear_arith);
    assert((w * h + 0) * d + 0 == w * h * d) by (nonlinear_arith);
    assert(w * h * d >= 0) by (nonlinear_arith)
        requires
            w >= 0,
            h >= 0,
            d >= 0,
    ;
}

/// From the end of row `(x, 0)` to the end of slab `x` every cell lies above
/// the bottom layer.
pub(crate) proof fn lemma_above_bottom(shape: Shape, x: int, k: int)
    requires
        0 <= x < shape.width,
        0 < shape.height,
        cell_index(shape, (x, 1, 0)) <= k < cell_index(shape, (x + 1, 0, 0)),
    ensures
        0 <= k < cell_count(shape),
        cell_at(shape, k).1 >= 1,
{
    let (w, h, d) = (shape.width as int, shape.height as int, shape.depth as int);
    assert(0 <= (x * h + 1) * d + 0 && ((x + 1) * h + 0) * d + 0 <= w * h * d)
        by (nonlinear_arith)
        requires
            0 <= x < w,
            0 < h,
            0 <= d,
    ;
    lemma_index_of_cell_at(shape, k);
    let (cx, cy, cz) = cell_at(shape, k);
    if cy < 1 {
        assert(false) by (nonlinear_arith)
            requires
                cy == 0,
                0 <= cz < d,
                0 <= cx,
                0 <= x,
                0 < h,
                k == (cx * h + cy) * d + cz,
                (x * h + 1) * d + 0 <= k < ((x + 1) * h + 0) * d + 0,
        ;
    }
}

/// Whether `cell` is an occupied cell of the grid at a position below `n`.
spec fn kept_before(shape: Shape, cell: (int, int, int), n: int) -> bool {
    &&& in_grid(shape, cell)
    &&& occupied(shape, cell)
    &&& cell_index(shape, cell) < n
}

/// What the scan of the first `n` cells has kept: only occupied cells of the
/// grid among those `n`, in increasing position, and all of them.
proof fn lemma_prefix_kept(shape: Shape, n: int)
    requires
        0 <= n <= cell_count(shape),
        coordinates_fit(shape),
    ensures
        rasterize_prefix(shape, n).len() <= n,
        forall|i: int|
            0 <= i < rasterize_prefix(shape, n).len() ==> kept_before(
                shape,
                cell_of(#[trigger] rasterize_prefix(shape, n)[i]),
                n,
            ),
        forall|i: int, j: int|
            0 <= i < j < rasterize_prefix(shape, n).len() ==> cell_index(
                shape,
                cell_of(#[trigger] rasterize_prefix(shape, n)[i]),
            ) < cell_index(shape, cell_of(#[trigger] rasterize_prefix(shape, n)[j])),
        forall|k: int|
            0 <= k < n && occupied(shape, cell_at(shape, k)) ==> rasterize_prefix(
                shape,
                n,
            ).contains(#[trigger] voxel_of(cell_at(shape, k))),
    decreases n,
{
    let kept = rasterize_prefix(shape, n);
    if n == 0 {
        lemma_prefix_ends(shape);
    } else {
        let earlier = rasterize_prefix(shape, n - 1);
        let cell = cell_at(shape, n - 1);
        lemma_prefix_kept(shape, n - 1);
        lemma_prefix_step(shape, n - 1);
        lemma_index_of_cell_at(shape, n - 1);
        assert(cell_of(voxel_of(cell)) == cell);
        assert forall|k: int|
            0 <= k < n && occupied(shape, cell_at(shape, k)) implies kept.contains(
            #[trigger] voxel_of(cell_at(shape, k)),
        ) by {
            if k < n - 1 {
                let at = choose|at: int|
                    0 <= at < earlier.len() && earlier[at] == voxel_of(cell_at(shape, k));
                assert(kept[at] == voxel_of(cell_at(shape, k)));
            } else {
                assert(kept[kept.len() - 1] == voxel_of(cell));
            }
        }
    }
}

/// Every voxel of the sequence stands for an occupied cell of the grid.
pub proof fn lemma_rasterize_sound(shape: Shape, i: int)
    requires
        coordinates_fit(shape),
        0 <= i < rasterize(shape).len(),
    ensures
        in_grid(shape, cell_of(rasterize(shape)[i])),
        occupied(shape, cell_of(rasterize(shape)[i])),
{
    lemma_prefix_kept(shape, cell_count(shape) as int);
    lemma_prefix_ends(shape);
}

/// Every occupied cell of the grid has its voxel in the sequence.
pub proof fn lemma_rasterize_complete(shape: Shape, cell: (int, int, int))
    requires
        coordinates_fit(shape),
        in_grid(shape, cell),
        occupied(shape, cell),
    ensures
        rasterize(shape).contains(voxel_of(cell)),
{
    lemma_prefix_kept(shape, cell_count(shape) as int);
    lemma_prefix_ends(shape);
    lemma_cell_index_bounds(shape, cell);
    lemma_cell_at_index(shape, cell);
}

/// The sequence follows the traversal: a later voxel stands for a cell at a
/// later position.
pub proof fn lemma_rasterize_ordered(shape: Shape, i: int, j: int)
    requires
        coordinates_fit(shape),
        0 <= i < j < rasterize(shape).len(),
    ensures
        cell_index(shape, cell_of(rasterize(shape)[i])) < cell_index(
            shape,
            cell_of(rasterize(shape)[j]),
        ),
{
    lemma_prefix_kept(shape, cell_count(shape) as int);
    lemma_prefix_ends(shape);
}

/// No voxel occurs twice in the sequence.
pub proof fn lemma_rasterize_no_duplicates(shape: Shape)
    requires
        coordinates_fit(shape),
    ensures
        rasterize(shape).no_duplicates(),
{
    let voxels = rasterize(shape);
    assert forall|i: int, j: int|
        0 <= i < voxels.len() && 0 <= j < voxels.len() && i != j implies voxels[i]
        != voxels[j] by {
        if i < j {
            lemma_rasterize_ordered(shape, i, j);
        } else {
            lemma_rasterize_ordered(shape, j, i);
        }
    }
}

/// The scan of the first `n` cells keeps at most `n` voxels, and keeps the
/// voxel of every cell where the solid is a cube.
proof fn lemma_prefix_len(shape: Shape, n: int)
    requires
        0 <= n <= cell_count(shape),
    ensures
        rasterize_prefix(shape, n).len() <= n,
        shape.shape_type == ShapeType::Cube ==> rasterize_prefix(shape, n) == traversal(
            shape,
        ).take(n).map_values(|cell: (int, int, int)| voxel_of(cell)),
    decreases n,
{
    if n == 0 {
        lemma_prefix_ends(shape);
    } else {
        lemma_prefix_len(shape, n - 1);
        lemma_prefix_step(shape, n - 1);
    }
}

/// No solid has more voxels than its grid has cells.
pub proof fn lemma_rasterize_len(shape: Shape)
    ensures
        rasterize(shape).len() <= cell_count(shape),
{
    lemma_prefix_len(shape, cell_count(shape) as int);
    lemma_prefix_ends(shape);
}

/// A cube has the voxel of every cell of its grid, at the cell's position,
/// and so each of them once.
pub proof fn lemma_cube_fills_grid(shape: Shape)
    requires
        shape.shape_type == ShapeType::Cube,
    ensures
        rasterize(shape).len() == shape.width * shape.height * shape.depth,
        coordinates_fit(shape) ==> rasterize(shape).no_duplicates(),
        forall|k: int|
            0 <= k < cell_count(shape) ==> #[trigger] rasterize(shape)[k] == voxel_of(
                cell_at(shape, k),
            ),
        forall|cell: (int, int, int)|
            in_grid(shape, cell) ==> rasterize(shape)[#[trigger] cell_index(shape, cell)]
                == voxel_of(cell),
{
    lemma_prefix_len(shape, cell_count(shape) as int);
    lemma_prefix_ends(shape);
    if coordinates_fit(shape) {
        lemma_rasterize_no_duplicates(shape);
    }
    assert(traversal(shape).take(cell_count(shape) as int) =~= traversal(shape));
    assert forall|cell: (int, int, int)| in_grid(shape, cell) implies rasterize(
        shape,
    )[#[trigger] cell_index(shape, cell)] == voxel_of(cell) by {
        lemma_cell_index_bounds(shape, cell);
        lemma_cell_at_index(shape, cell);
    }
}

/// A solid has at most as many voxels as the cube of the same dimensions.
pub proof fn lemma_cube_is_largest(shape: Shape)
    ensures
        rasterize(shape).len() <= rasterize(cube_of(shape)).len(),
        rasterize(cube_of(shape)).len() == cell_count(shape),
{
    let cube = cube_of(shape);
    lemma_rasterize_len(shape);
    lemma_cube_fills_grid(cube);
    assert(cell_count(cube) == cell_count(shape));
}

/// A grid without extent along some axis has no cells, so no solid has a voxel in it.
pub proof fn lemma_flat_grid_is_empty(shape: Shape)
    requires
        shape.width == 0 || shape.height == 0 || shape.depth == 0,
    ensures
        rasterize(shape) == Seq::<(i32, i32, i32)>::empty(),
{
    let (w, h, d) = (shape.width as int, shape.height as int, shape.depth as int);
    assert(w * h * d == 0) by (nonlinear_arith)
        requires
            w == 0 || h == 0 || d == 0,
    ;
    lemma_rasterize_len(shape);
    assert(rasterize(shape) =~= Seq::<(i32, i32, i32)>::empty());
}

} // verus!
