//! The tick: sand falls, water falls and flows, everything else stays.

use crate::grid::{
    cell, is_square, lemma_swap_cells, lemma_swap_materials, lemma_swapped_shape, materials,
    neighbour, swapped, Grid,
};
use crate::world::{Adjacency, PixelType, Point, World, WorldError};
use vstd::prelude::*;

verus! {

/// Where a material that falls goes from `(x, y)`: straight down if the
/// cell below is `Air`, else down and to the left, else down and to the
/// right. `None` when none of the three is `Air`.
pub open spec fn falling_move(g: Grid, x: int, y: int) -> Option<Adjacency> {
    if neighbour(g, x, y, Adjacency::Below) == PixelType::Air {
        Some(Adjacency::Below)
    } else if neighbour(g, x, y, Adjacency::BelowLeft) == PixelType::Air {
        Some(Adjacency::BelowLeft)
    } else if neighbour(g, x, y, Adjacency::BelowRight) == PixelType::Air {
        Some(Adjacency::BelowRight)
    } else {
        None
    }
}

/// Where a material that also flows goes from `(x, y)`: where it would fall
/// to, and if it cannot fall, to the left if that cell is `Air`, else to the
/// right if that cell is `Air`.
pub open spec fn flowing_move(g: Grid, x: int, y: int) -> Option<Adjacency> {
    if falling_move(g, x, y) is Some {
        falling_move(g, x, y)
    } else if neighbour(g, x, y, Adjacency::Left) == PixelType::Air {
        Some(Adjacency::Left)
    } else if neighbour(g, x, y, Adjacency::Right) == PixelType::Air {
        Some(Adjacency::Right)
    } else {
        None
    }
}

/// The move that the material at `(x, y)` makes when its turn comes: sand
/// falls, water flows, everything else stays.
pub open spec fn chosen_move(g: Grid, x: int, y: int) -> Option<Adjacency> {
    match cell(g, x, y) {
        PixelType::Sand => falling_move(g, x, y),
        PixelType::Water => flowing_move(g, x, y),
        _ => None,
    }
}

/// The grid after `direction`, if there is one, has been carried out as an
/// exchange between `(x, y)` and its neighbour.
pub open spec fn moved(g: Grid, x: int, y: int, direction: Option<Adjacency>) -> Grid {
    match direction {
        Some(adj) => swapped(g, x, y, adj),
        None => g,
    }
}

/// The grid after the cell at `(x, y)` has had its turn.
pub open spec fn stepped(g: Grid, x: int, y: int) -> Grid {
    moved(g, x, y, chosen_move(g, x, y))
}

/// The grid after the lowest `height` cells of column `x` have had their
/// turns, from the bottom up.
pub open spec fn swept_column(g: Grid, x: int, height: int) -> Grid
    decreases height,
{
    if height <= 0 {
        g
    } else {
        stepped(swept_column(g, x, height - 1), x, height - 1)
    }
}

/// The grid after the leftmost `width` columns have been swept, from left
/// to right.
pub open spec fn swept(g: Grid, width: int) -> Grid
    decreases width,
{
    if width <= 0 {
        g
    } else {
        swept_column(swept(g, width - 1), width - 1, g.len() as int)
    }
}

/// The grid one tick later. Every cell has its turn once, column by column
/// from the left and within a column from the bottom up, and each turn
/// sees what the turns before it left behind: a material that moves into a
/// cell whose turn is still to come moves again in the same tick, and ties
/// go to the left.
pub open spec fn advanced(g: Grid) -> Grid {
    swept(g, g.len() as int)
}

/// A turn keeps the grid square and of the same size, and changes the
/// count of no material.
pub proof fn lemma_stepped_conserves(g: Grid, x: int, y: int)
    requires
        is_square(g),
    ensures
        stepped(g, x, y).len() == g.len(),
        is_square(stepped(g, x, y)),
        materials(stepped(g, x, y)) == materials(g),
{
    match chosen_move(g, x, y) {
        Some(adj) => {
            lemma_swapped_shape(g, x, y, adj);
            lemma_swap_materials(g, x, y, adj);
        },
        None => {},
    }
}

/// Sweeping a column keeps the grid square and of the same size, and
/// changes the count of no material.
pub proof fn lemma_swept_column_conserves(g: Grid, x: int, height: int)
    requires
        is_square(g),
    ensures
        swept_column(g, x, height).len() == g.len(),
        is_square(swept_column(g, x, height)),
        materials(swept_column(g, x, height)) == materials(g),
    decreases height,
{
    if height > 0 {
        lemma_swept_column_conserves(g, x, height - 1);
        lemma_stepped_conserves(swept_column(g, x, height - 1), x, height - 1);
    }
}

/// Sweeping columns keeps the grid square and of the same size, and
/// changes the count of no material.
pub proof fn lemma_swept_conserves(g: Grid, width: int)
    requires
        is_square(g),
    ensures
        swept(g, width).len() == g.len(),
        is_square(swept(g, width)),
        materials(swept(g, width)) == materials(g),
    decreases width,
{
    if width > 0 {
        lemma_swept_conserves(g, width - 1);
        lemma_swept_column_conserves(swept(g, width - 1), width - 1, g.len() as int);
    }
}

/// A tick keeps the grid square and of the same size, and changes the
/// count of no material: nothing is made and nothing is lost.
pub proof fn lemma_advanced_conserves(g: Grid)
    requires
        is_square(g),
    ensures
        advanced(g).len() == g.len(),
        is_square(advanced(g)),
        materials(advanced(g)) == materials(g),
{
    lemma_swept_conserves(g, g.len() as int);
}

/// A material that no rule moves: `Solid`, and the `OutOfBounds` that a
/// read beyond the edge answers or that a caller chose to store.
pub open spec fn is_still(t: PixelType) -> bool {
    t == PixelType::Solid || t == PixelType::OutOfBounds
}

/// A turn moves sand and water into air only: where a still material was
/// it stays, and where one is afterwards it was before.
pub proof fn lemma_stepped_keeps_still(g: Grid, x: int, y: int, x2: int, y2: int)
    requires
        is_square(g),
        is_still(cell(g, x2, y2)) || is_still(cell(stepped(g, x, y), x2, y2)),
    ensures
        cell(stepped(g, x, y), x2, y2) == cell(g, x2, y2),
{
    match chosen_move(g, x, y) {
        Some(adj) => {
            lemma_swap_cells(g, x, y, adj, x2, y2);
        },
        None => {},
    }
}

/// Sweeping a column leaves every still material where it was and brings
/// none to a new place.
proof fn lemma_swept_column_keeps_still(g: Grid, x: int, height: int, x2: int, y2: int)
    requires
        is_square(g),
        is_still(cell(g, x2, y2)) || is_still(cell(swept_column(g, x, height), x2, y2)),
    ensures
        cell(swept_column(g, x, height), x2, y2) == cell(g, x2, y2),
    decreases height,
{
    if height > 0 {
        let h = swept_column(g, x, height - 1);
        lemma_swept_column_conserves(g, x, height - 1);
        if is_still(cell(g, x2, y2)) {
            lemma_swept_column_keeps_still(g, x, height - 1, x2, y2);
            lemma_stepped_keeps_still(h, x, height - 1, x2, y2);
        } else {
            lemma_stepped_keeps_still(h, x, height - 1, x2, y2);
            lemma_swept_column_keeps_still(g, x, height - 1, x2, y2);
        }
    }
}

/// Sweeping columns leaves every still material where it was and brings
/// none to a new place.
proof fn lemma_swept_keeps_still(g: Grid, width: int, x2: int, y2: int)
    requires
        is_square(g),
        is_still(cell(g, x2, y2)) || is_still(cell(swept(g, width), x2, y2)),
    ensures
        cell(swept(g, width), x2, y2) == cell(g, x2, y2),
    decreases width,
{
    if width > 0 {
        let h = swept(g, width - 1);
        lemma_swept_conserves(g, width - 1);
        if is_still(cell(g, x2, y2)) {
            lemma_swept_keeps_still(g, width - 1, x2, y2);
            lemma_swept_column_keeps_still(h, width - 1, g.len() as int, x2, y2);
        } else {
            lemma_swept_column_keeps_still(h, width - 1, g.len() as int, x2, y2);
            lemma_swept_keeps_still(g, width - 1, x2, y2);
        }
    }
}

/// A tick leaves every still material where it was and brings none to a
/// new place: `Solid` is the same wall before and after, and a tick stores
/// no `OutOfBounds`.
pub proof fn lemma_advanced_keeps_still(g: Grid, x: int, y: int)
    requires
        is_square(g),
        is_still(cell(g, x, y)) || is_still(cell(advanced(g), x, y)),
    ensures
        cell(advanced(g), x, y) == cell(g, x, y),
{
    lemma_swept_keeps_still(g, g.len() as int, x, y);
}

/// Advances the grid by one tick: every cell has its turn once, column by
/// column from the left and within a column from the bottom up. A tick
/// always succeeds, since no rule moves a material off the grid.
pub fn update_world(world: &mut World) -> (r: Result<(), WorldError>)
    ensures
        r is Ok,
        final(world)@ == advanced(old(world)@),
        final(world)@.len() == old(world)@.len(),
        materials(final(world)@) == materials(old(world)@),
{
    let size = world.size();
    let ghost start = world@;
    proof {
        world.lemma_view_is_square();
    }
    let mut x: usize = 0;
    while x < size
        invariant
            x <= size,
            size == start.len(),
            is_square(start),
            world@.len() == size,
            world@ == swept(start, x as int),
        decreases size - x,
    {
        let ghost column_start = world@;
        let mut y: usize = 0;
        while y < size
            invariant
                y <= size,
                world@.len() == size,
                world@ == swept_column(column_start, x as int, y as int),
            decreases size - y,
        {
            let handled = match world.get_pixel_type(Point::new(x, y)) {
                PixelType::Solid => handle_solid(world, Point::new(x, y)),
                PixelType::Sand => handle_sand(world, Point::new(x, y)),
                PixelType::Water => handle_water(world, Point::new(x, y)),
                PixelType::Air => handle_air(world, Point::new(x, y)),
                PixelType::OutOfBounds => handle_out_of_bounds(world, Point::new(x, y)),
            };
            match handled {
                Ok(()) => {},
                Err(e) => {
                    return Err(e);
                },
            }
            y += 1;
        }
        x += 1;
    }
    proof {
        lemma_advanced_conserves(start);
    }
    Ok(())
}

/// The turn of a cell of `Solid`: it stays.
fn handle_solid(_world: &mut World, _point: Point) -> (r: Result<(), WorldError>)
    ensures
        r is Ok,
        final(_world)@ == old(_world)@,
{
    Ok(())
}

/// The turn of a cell of `Sand` at `point`: it falls, if it can. The cell
/// is taken to hold sand, whatever it does hold; a move is refused, and the
/// grid left as it was, only where `point` reads as `OutOfBounds`.
fn handle_sand(world: &mut World, point: Point) -> (r: Result<(), WorldError>)
    ensures
        final(world)@ == moved(
            old(world)@,
            point.x as int,
            point.y as int,
            falling_move(old(world)@, point.x as int, point.y as int),
        ),
        r == if falling_move(old(world)@, point.x as int, point.y as int) is Some && cell(
            old(world)@,
            point.x as int,
            point.y as int,
        ) == PixelType::OutOfBounds {
            Err(WorldError::OutOfBoundsWrite)
        } else {
            Ok(())
        },
        final(world)@.len() == old(world)@.len(),
{
    if world.get_pixel_type_adj(point, Adjacency::Below) == PixelType::Air {
        world.swap_pixel_type(&point, Adjacency::Below)
    } else if world.get_pixel_type_adj(point, Adjacency::BelowLeft) == PixelType::Air {
        world.swap_pixel_type(&point, Adjacency::BelowLeft)
    } else if world.get_pixel_type_adj(point, Adjacency::BelowRight) == PixelType::Air {
        world.swap_pixel_type(&point, Adjacency::BelowRight)
    } else {
        Ok(())
    }
}

/// The turn of a cell of `Water` at `point`: it falls if it can, and else
/// flows sideways if it can. The cell is taken to hold water, whatever it
/// does hold; a move is refused, and the grid left as it was, only where
/// `point` reads as `OutOfBounds`.
fn handle_water(world: &mut World, point: Point) -> (r: Result<(), WorldError>)
    ensures
        final(world)@ == moved(
            old(world)@,
            point.x as int,
            point.y as int,
            flowing_move(old(world)@, point.x as int, point.y as int),
        ),
        r == if flowing_move(old(world)@, point.x as int, point.y as int) is Some && cell(
            old(world)@,
            point.x as int,
            point.y as int,
        ) == PixelType::OutOfBounds {
            Err(WorldError::OutOfBoundsWrite)
        } else {
            Ok(())
        },
        final(world)@.len() == old(world)@.len(),
{
    if world.get_pixel_type_adj(point, Adjacency::Below) == PixelType::Air {
        world.swap_pixel_type(&point, Adjacency::Below)
    } else if world.get_pixel_type_adj(point, Adjacency::BelowLeft) == PixelType::Air {
        world.swap_pixel_type(&point, Adjacency::BelowLeft)
    } else if world.get_pixel_type_adj(point, Adjacency::BelowRight) == PixelType::Air {
        world.swap_pixel_type(&point, Adjacency::BelowRight)
    } else if world.get_pixel_type_adj(point, Adjacency::Left) == PixelType::Air {
        world.swap_pixel_type(&point, Adjacency::Left)
    } else if world.get_pixel_type_adj(point, Adjacency::Right) == PixelType::Air {
        world.swap_pixel_type(&point, Adjacency::Right)
    } else {
        Ok(())
    }
}

/// The turn of a cell of `Air`: it stays.
fn handle_air(_world: &mut World, _point: Point) -> (r: Result<(), WorldError>)
    ensures
        r is Ok,
        final(_world)@ == old(_world)@,
{
    Ok(())
}

/// The turn of a place outside the grid: nothing is there to move.
fn handle_out_of_bounds(_world: &mut World, _point: Point) -> (r: Result<(), WorldError>)
    ensures
        r is Ok,
        final(_world)@ == old(_world)@,
{
    Ok(())
}

} // verus!
