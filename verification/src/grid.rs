//! The grid as mathematics: what reading, writing and exchanging cells mean,
//! and the laws that hold of them.

use crate::world::{Adjacency, PixelType};
use vstd::multiset::Multiset;
use vstd::prelude::*;

verus! {

/// The mathematical picture of a grid: its rows from top to bottom, each row
/// from left to right.
pub type Grid = Seq<Seq<PixelType>>;

/// Every row is as long as the grid is tall.
pub open spec fn is_square(g: Grid) -> bool {
    forall|r: int| 0 <= r < g.len() ==> (#[trigger] g[r]).len() == g.len()
}

/// `(x, y)` names a cell of the grid.
pub open spec fn in_bounds(g: Grid, x: int, y: int) -> bool {
    0 <= x < g.len() && 0 <= y < g.len()
}

/// The material stored in row `row`, column `col`, and `OutOfBounds` where
/// the grid has no such place.
pub open spec fn raw_cell(g: Grid, row: int, col: int) -> PixelType {
    if 0 <= row < g.len() && 0 <= col < g.len() {
        g[row][col]
    } else {
        PixelType::OutOfBounds
    }
}

/// The grid with the material in row `row`, column `col` replaced by `t`;
/// the grid itself where it has no such place.
pub open spec fn with_raw_cell(g: Grid, row: int, col: int, t: PixelType) -> Grid {
    if 0 <= row < g.len() && 0 <= col < g.len() {
        g.update(row, g[row].update(col, t))
    } else {
        g
    }
}

/// The material at Cartesian position `(x, y)`: column `x` of the row that
/// lies `y` rows above the bottom one.
pub open spec fn cell(g: Grid, x: int, y: int) -> PixelType {
    raw_cell(g, g.len() - 1 - y, x)
}

/// The grid with the material at Cartesian position `(x, y)` replaced by `t`.
pub open spec fn with_cell(g: Grid, x: int, y: int, t: PixelType) -> Grid {
    with_raw_cell(g, g.len() - 1 - y, x, t)
}

/// The material of the neighbour of `(x, y)` towards `adj`.
pub open spec fn neighbour(g: Grid, x: int, y: int, adj: Adjacency) -> PixelType {
    cell(g, x + adj.dx(), y + adj.dy())
}

/// The grid after the cell at `(x, y)` and its neighbour towards `adj` have
/// exchanged their materials. Nothing moves when either of the two reads
/// as `OutOfBounds`.
pub open spec fn swapped(g: Grid, x: int, y: int, adj: Adjacency) -> Grid {
    if cell(g, x, y) == PixelType::OutOfBounds || neighbour(g, x, y, adj)
        == PixelType::OutOfBounds {
        g
    } else {
        with_cell(
            with_cell(g, x, y, neighbour(g, x, y, adj)),
            x + adj.dx(),
            y + adj.dy(),
            cell(g, x, y),
        )
    }
}

/// A grid of `n` rows and `n` columns that holds `Air` everywhere.
pub open spec fn blank(n: nat) -> Grid {
    Seq::new(n, |r: int| Seq::new(n, |c: int| PixelType::Air))
}

/// How often each material occurs in the grid.
pub open spec fn materials(g: Grid) -> Multiset<PixelType> {
    g.flatten().to_multiset()
}

/// Replacing one element of a sequence trades the old element for the new
/// one in its multiset.
proof fn lemma_update_to_multiset<A>(s: Seq<A>, i: int, a: A)
    requires
        0 <= i < s.len(),
    ensures
        s.update(i, a).to_multiset().insert(s[i]) =~= s.to_multiset().insert(a),
{
    broadcast use vstd::multiset::group_multiset_axioms;

    let rest = s.remove(i);
    assert(s.update(i, a) =~= rest.insert(i, a));
    assert(s =~= rest.insert(i, s[i]));
    vstd::seq_lib::to_multiset_insert(rest, i, a);
    vstd::seq_lib::to_multiset_insert(rest, i, s[i]);
}

/// Replacing one row of a table trades the old row's elements for the new
/// row's in the multiset of all elements.
proof fn lemma_flatten_update_to_multiset<A>(g: Seq<Seq<A>>, r: int, row: Seq<A>)
    requires
        0 <= r < g.len(),
    ensures
        g.update(r, row).flatten().to_multiset().add(g[r].to_multiset())
            =~= g.flatten().to_multiset().add(row.to_multiset()),
{
    broadcast use vstd::multiset::group_multiset_axioms;

    let above = g.take(r);
    let below = g.skip(r + 1);
    let h = g.update(r, row);
    assert(g =~= above + seq![g[r]] + below);
    assert(h =~= above + seq![row] + below);
    vstd::seq_lib::lemma_flatten_concat(above + seq![g[r]], below);
    vstd::seq_lib::lemma_flatten_concat(above, seq![g[r]]);
    vstd::seq_lib::lemma_flatten_concat(above + seq![row], below);
    vstd::seq_lib::lemma_flatten_concat(above, seq![row]);
    seq![g[r]].lemma_flatten_one_element();
    seq![row].lemma_flatten_one_element();
    vstd::seq_lib::lemma_multiset_commutative(above.flatten() + g[r], below.flatten());
    vstd::seq_lib::lemma_multiset_commutative(above.flatten(), g[r]);
    vstd::seq_lib::lemma_multiset_commutative(above.flatten() + row, below.flatten());
    vstd::seq_lib::lemma_multiset_commutative(above.flatten(), row);
}

/// A write keeps the grid square and of the same size.
pub proof fn lemma_with_cell_shape(g: Grid, x: int, y: int, t: PixelType)
    requires
        is_square(g),
    ensures
        with_cell(g, x, y, t).len() == g.len(),
        is_square(with_cell(g, x, y, t)),
{
}

/// An exchange keeps the grid square and of the same size.
pub proof fn lemma_swapped_shape(g: Grid, x: int, y: int, adj: Adjacency)
    requires
        is_square(g),
    ensures
        swapped(g, x, y, adj).len() == g.len(),
        is_square(swapped(g, x, y, adj)),
{
}

/// What is written at a cell of the grid is what is read there afterwards.
pub proof fn lemma_write_then_read(g: Grid, x: int, y: int, t: PixelType)
    requires
        is_square(g),
        in_bounds(g, x, y),
    ensures
        cell(with_cell(g, x, y, t), x, y) == t,
{
}

/// A write changes no cell but the one it names.
pub proof fn lemma_write_elsewhere(g: Grid, x: int, y: int, t: PixelType, x2: int, y2: int)
    requires
        is_square(g),
        x2 != x || y2 != y,
    ensures
        cell(with_cell(g, x, y, t), x2, y2) == cell(g, x2, y2),
{
}

/// Reading beside, above or below the grid, on any side, answers
/// `OutOfBounds`.
pub proof fn lemma_read_outside(g: Grid, x: int, y: int)
    requires
        x < 0 || y < 0 || x >= g.len() || y >= g.len(),
    ensures
        cell(g, x, y) == PixelType::OutOfBounds,
{
}

/// A write trades the material that the cell held for the one written, and
/// changes the count of no other.
pub proof fn lemma_write_materials(g: Grid, x: int, y: int, t: PixelType)
    requires
        is_square(g),
        in_bounds(g, x, y),
    ensures
        materials(with_cell(g, x, y, t)).insert(cell(g, x, y)) =~= materials(g).insert(t),
{
    broadcast use vstd::multiset::group_multiset_axioms;

    let r = g.len() - 1 - y;
    let before = g[r];
    let after = before.update(x, t);
    let h = with_cell(g, x, y, t);
    lemma_update_to_multiset(before, x, t);
    lemma_flatten_update_to_multiset(g, r, after);
    assert forall|v: PixelType|
        materials(h).insert(cell(g, x, y)).count(v) == materials(g).insert(t).count(v) by {
        assert(materials(h).add(before.to_multiset()).count(v) == materials(g).add(
            after.to_multiset(),
        ).count(v));
        assert(after.to_multiset().insert(before[x]).count(v) == before.to_multiset().insert(
            t,
        ).count(v));
    }
}

/// An exchange that is refused, because the cell or its neighbour reads as
/// `OutOfBounds`, changes nothing.
pub proof fn lemma_swap_refused(g: Grid, x: int, y: int, adj: Adjacency)
    requires
        cell(g, x, y) == PixelType::OutOfBounds || neighbour(g, x, y, adj)
            == PixelType::OutOfBounds,
    ensures
        swapped(g, x, y, adj) == g,
{
}

/// An exchange that takes place puts each of the two materials where the
/// other was and changes no other cell.
pub proof fn lemma_swap_cells(g: Grid, x: int, y: int, adj: Adjacency, x2: int, y2: int)
    requires
        is_square(g),
        cell(g, x, y) != PixelType::OutOfBounds,
        neighbour(g, x, y, adj) != PixelType::OutOfBounds,
    ensures
        cell(swapped(g, x, y, adj), x2, y2) == if x2 == x && y2 == y {
            neighbour(g, x, y, adj)
        } else if x2 == x + adj.dx() && y2 == y + adj.dy() {
            cell(g, x, y)
        } else {
            cell(g, x2, y2)
        },
{
}

/// Exchanging a cell with the same neighbour twice restores the grid.
pub proof fn lemma_swap_twice(g: Grid, x: int, y: int, adj: Adjacency)
    requires
        is_square(g),
    ensures
        swapped(swapped(g, x, y, adj), x, y, adj) == g,
{
    let h = swapped(g, x, y, adj);
    assert(swapped(h, x, y, adj) =~~= g);
}

/// An exchange changes the count of no material.
pub proof fn lemma_swap_materials(g: Grid, x: int, y: int, adj: Adjacency)
    requires
        is_square(g),
    ensures
        materials(swapped(g, x, y, adj)) == materials(g),
{
    broadcast use vstd::multiset::group_multiset_axioms;

    let nx = x + adj.dx();
    let ny = y + adj.dy();
    let a = cell(g, x, y);
    let b = cell(g, nx, ny);
    if a != PixelType::OutOfBounds && b != PixelType::OutOfBounds {
        let h = with_cell(g, x, y, b);
        let k = with_cell(h, nx, ny, a);
        lemma_write_materials(g, x, y, b);
        lemma_write_materials(h, nx, ny, a);
        assert(cell(h, nx, ny) == b);
        assert forall|v: PixelType| materials(k).count(v) == materials(g).count(v) by {
            assert(materials(h).insert(a).count(v) == materials(g).insert(b).count(v));
            assert(materials(k).insert(b).count(v) == materials(h).insert(a).count(v));
        }
        assert(materials(k) =~= materials(g));
    }
}

} // verus!
