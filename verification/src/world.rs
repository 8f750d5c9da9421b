//! The grid as data: the materials, the directions, and the square of
//! cells that the other modules read and write.

use crate::grid::{
    blank, cell, in_bounds, is_square, neighbour, raw_cell, swapped, with_cell, with_raw_cell,
    Grid,
};
use vstd::prelude::*;

verus! {

/// The two ways a `Point` can address a cell of a `World`.
#[derive(Debug, Clone, Copy, PartialEq, Eq, Structural)]
pub enum CoordinateFrame {
    /// Storage indices: `x` is the row counted from the top, `y` the column
    /// counted from the left.
    Raw,
    /// Cartesian coordinates: origin at the bottom-left cell, `x` growing to
    /// the right and `y` growing upwards.
    Translated,
}

/// A position on the grid, in whichever coordinate frame the caller is using.
#[derive(Debug, Clone, Copy)]
pub struct Point {
    pub x: usize,
    pub y: usize,
}

impl Point {
    pub fn new(x: usize, y: usize) -> (p: Self)
        ensures
            p.x == x,
            p.y == y,
    {
        Self { x, y }
    }
}

/// The material held by a cell.
#[derive(Debug, Clone, Copy, PartialEq, Eq, Structural)]
pub enum PixelType {
    /// Never moves.
    Solid,
    /// Falls, and piles up by settling diagonally.
    Sand,
    /// Falls, settles diagonally, and otherwise spreads sideways.
    Water,
    /// Empty space that other materials can move into.
    Air,
    /// What a read beyond the edge of the grid answers.
    OutOfBounds,
}

/// One cell of the grid.
#[derive(Debug, Clone, Copy)]
pub struct Pixel {
    pub pixel_type: PixelType,
}

impl Pixel {
    pub fn new(pixel_type: PixelType) -> (p: Self)
        ensures
            p.pixel_type == pixel_type,
    {
        Self { pixel_type }
    }
}

impl Default for Pixel {
    fn default() -> (p: Self)
        ensures
            p.pixel_type == PixelType::Air,
    {
        Self { pixel_type: PixelType::Air }
    }
}

/// The eight neighbours of a cell.
#[derive(Debug, Clone, Copy, PartialEq, Eq, Structural)]
pub enum Adjacency {
    AboveLeft,
    Above,
    AboveRight,
    Left,
    Right,
    BelowLeft,
    Below,
    BelowRight,
}

impl Adjacency {
    /// The horizontal step towards this neighbour.
    pub open spec fn dx(self) -> int {
        match self {
            Adjacency::AboveLeft | Adjacency::Left | Adjacency::BelowLeft => -1,
            Adjacency::Above | Adjacency::Below => 0,
            Adjacency::AboveRight | Adjacency::Right | Adjacency::BelowRight => 1,
        }
    }

    /// The vertical step towards this neighbour; upwards is positive.
    pub open spec fn dy(self) -> int {
        match self {
            Adjacency::AboveLeft | Adjacency::Above | Adjacency::AboveRight => 1,
            Adjacency::Left | Adjacency::Right => 0,
            Adjacency::BelowLeft | Adjacency::Below | Adjacency::BelowRight => -1,
        }
    }
}

/// Why a write to the grid was refused.
#[derive(Debug, Clone, Copy, PartialEq, Eq, Structural)]
pub enum WorldError {
    /// The write named a cell that the grid does not have.
    OutOfBoundsWrite,
}

/// Overwrites one cell of a table of rows and leaves its shape alone.
fn store(rows: &mut Vec<Vec<Pixel>>, row: usize, col: usize, pixel: Pixel)
    requires
        row < old(rows)@.len(),
        col < old(rows)@[row as int]@.len(),
    ensures
        final(rows)@.len() == old(rows)@.len(),
        forall|r: int|
            0 <= r < old(rows)@.len() ==> (#[trigger] final(rows)@[r])@ == if r == row {
                old(rows)@[r]@.update(col as int, pixel)
            } else {
                old(rows)@[r]@
            },
    no_unwind
{
    rows[row][col] = pixel;
}

/// A row of `size` cells of `Air`.
fn blank_row(size: usize) -> (row: Vec<Pixel>)
    ensures
        row@.len() == size,
        forall|c: int| 0 <= c < size ==> (#[trigger] row@[c]).pixel_type == PixelType::Air,
{
    let mut row: Vec<Pixel> = Vec::new();
    let mut c: usize = 0;
    while c < size
        invariant
            c <= size,
            row@.len() == c,
            forall|i: int| 0 <= i < c ==> (#[trigger] row@[i]).pixel_type == PixelType::Air,
        decreases size - c,
    {
        row.push(Pixel::default());
        c += 1;
    }
    row
}

/// A square grid of cells, fixed in size when it is made.
///
/// Cells are addressed by Cartesian coordinates: the origin is the
/// bottom-left cell, `x` grows to the right and `y` grows upwards. The rows
/// are stored from the top down, so the cell `(x, y)` of a grid of side `n`
/// is column `x` of stored row `n - 1 - y`.
pub struct World {
    world: Vec<Vec<Pixel>>,
    size: usize,
}

impl View for World {
    type V = Grid;

    /// The materials of the grid, row by row from the top.
    closed spec fn view(&self) -> Grid {
        Seq::new(
            self.size as nat,
            |r: int| Seq::new(self.size as nat, |c: int| self.world@[r]@[c].pixel_type),
        )
    }
}

impl World {
    #[verifier::type_invariant]
    spec fn well_formed(&self) -> bool {
        &&& self.world@.len() == self.size
        &&& forall|r: int| 0 <= r < self.size ==> (#[trigger] self.world@[r])@.len() == self.size
    }

    /// The picture of a grid is square, whatever the grid.
    pub proof fn lemma_view_is_square(self)
        ensures
            is_square(self@),
    {
    }

    /// A grid of `size` rows and `size` columns, all of it `Air`.
    pub fn new(size: usize) -> (w: Self)
        ensures
            w@ == blank(size as nat),
    {
        let mut world: Vec<Vec<Pixel>> = Vec::new();
        let mut r: usize = 0;
        while r < size
            invariant
                r <= size,
                world@.len() == r,
                forall|i: int| 0 <= i < r ==> (#[trigger] world@[i])@.len() == size,
                forall|i: int, c: int|
                    0 <= i < r && 0 <= c < size ==> (#[trigger] world@[i]@[c]).pixel_type
                        == PixelType::Air,
            decreases size - r,
        {
            world.push(blank_row(size));
            r += 1;
        }
        let w = World { world, size };
        assert(w@ =~~= blank(size as nat));
        w
    }

    /// The number of rows, which is also the number of columns.
    pub fn size(&self) -> (n: usize)
        ensures
            n == self@.len(),
    {
        self.size
    }

    /// Where the cell at Cartesian `point` is stored: `x` of the answer is
    /// the row, `y` the column. `None` when the grid has no such cell.
    fn translate_to_bottom_left_coords(&self, point: Point) -> (stored: Option<Point>)
        ensures
            stored is Some <==> in_bounds(self@, point.x as int, point.y as int),
            stored matches Some(p) ==> p.x == self@.len() - 1 - point.y && p.y == point.x,
    {
        proof {
            use_type_invariant(self);
        }
        if point.x < self.size && point.y < self.size {
            Some(Point::new(self.size - 1 - point.y, point.x))
        } else {
            None
        }
    }

    /// The Cartesian position one step from `point` towards `adj`. `None`
    /// when that position cannot be written as a `Point`; no grid has a cell
    /// there.
    fn determine_adj_coords(&self, point: Point, adj: Adjacency) -> (neighbour: Option<Point>)
        ensures
            neighbour is Some <==> 0 <= point.x + adj.dx() <= usize::MAX && 0 <= point.y + adj.dy()
                <= usize::MAX,
            neighbour matches Some(p) ==> p.x == point.x + adj.dx() && p.y == point.y + adj.dy(),
            neighbour is None ==> !in_bounds(
                self@,
                point.x + adj.dx(),
                point.y + adj.dy(),
            ),
    {
        proof {
            use_type_invariant(self);
        }
        let lookup_x = match adj {
            Adjacency::AboveLeft | Adjacency::Left | Adjacency::BelowLeft => point.x.checked_sub(1),
            Adjacency::Above | Adjacency::Below => Some(point.x),
            Adjacency::AboveRight | Adjacency::Right | Adjacency::BelowRight => point.x.checked_add(
                1,
            ),
        };
        let lookup_y = match adj {
            Adjacency::AboveLeft | Adjacency::Above | Adjacency::AboveRight => point.y.checked_add(
                1,
            ),
            Adjacency::Left | Adjacency::Right => Some(point.y),
            Adjacency::BelowLeft | Adjacency::Below | Adjacency::BelowRight => point.y.checked_sub(
                1,
            ),
        };
        match (lookup_x, lookup_y) {
            (Some(x), Some(y)) => Some(Point::new(x, y)),
            _ => None,
        }
    }

    /// The material stored at `point`, read in the given frame;
    /// `OutOfBounds` where the grid has no such place.
    pub fn get_pixel_type_in(&self, frame: CoordinateFrame, point: Point) -> (t: PixelType)
        ensures
            frame == CoordinateFrame::Raw ==> t == raw_cell(self@, point.x as int, point.y as int),
            frame == CoordinateFrame::Translated ==> t == cell(
                self@,
                point.x as int,
                point.y as int,
            ),
    {
        match frame {
            CoordinateFrame::Raw => {
                proof {
                    use_type_invariant(self);
                }
                if point.x < self.size && point.y < self.size {
                    self.world[point.x][point.y].pixel_type
                } else {
                    PixelType::OutOfBounds
                }
            },
            CoordinateFrame::Translated => self.get_pixel_type(point),
        }
    }

    /// Writes `pixel_type` at `point`, addressed in the given frame. The
    /// write is refused, and the grid left as it was, where the grid has no
    /// such place.
    pub fn set_pixel_type_in(
        &mut self,
        frame: CoordinateFrame,
        point: Point,
        pixel_type: PixelType,
    ) -> (r: Result<(), WorldError>)
        ensures
            frame == CoordinateFrame::Raw ==> {
                &&& final(self)@ == with_raw_cell(
                    old(self)@,
                    point.x as int,
                    point.y as int,
                    pixel_type,
                )
                &&& r == if point.x < old(self)@.len() && point.y < old(self)@.len() {
                    Ok(())
                } else {
                    Err(WorldError::OutOfBoundsWrite)
                }
            },
            frame == CoordinateFrame::Translated ==> {
                &&& final(self)@ == with_cell(
                    old(self)@,
                    point.x as int,
                    point.y as int,
                    pixel_type,
                )
                &&& r == if in_bounds(old(self)@, point.x as int, point.y as int) {
                    Ok(())
                } else {
                    Err(WorldError::OutOfBoundsWrite)
                }
            },
            r is Err ==> final(self)@ == old(self)@,
            final(self)@.len() == old(self)@.len(),
    {
        match frame {
            CoordinateFrame::Raw => {
                proof {
                    use_type_invariant(&*self);
                }
                if point.x < self.size && point.y < self.size {
                    store(&mut self.world, point.x, point.y, Pixel::new(pixel_type));
                    assert(self@ =~~= with_raw_cell(
                        old(self)@,
                        point.x as int,
                        point.y as int,
                        pixel_type,
                    ));
                    Ok(())
                } else {
                    Err(WorldError::OutOfBoundsWrite)
                }
            },
            CoordinateFrame::Translated => self.set_pixel_type(point, pixel_type),
        }
    }

    /// The material at `point`; `OutOfBounds` when `point` lies outside the
    /// grid.
    pub fn get_pixel_type(&self, point: Point) -> (t: PixelType)
        ensures
            t == cell(self@, point.x as int, point.y as int),
            point.x >= self@.len() || point.y >= self@.len() ==> t == PixelType::OutOfBounds,
    {
        match self.translate_to_bottom_left_coords(point) {
            Some(stored) => {
                proof {
                    use_type_invariant(self);
                }
                self.world[stored.x][stored.y].pixel_type
            },
            None => PixelType::OutOfBounds,
        }
    }

    /// Writes `pixel_type` at `point`. The write is refused, and the grid
    /// left as it was, when `point` lies outside the grid.
    pub fn set_pixel_type(&mut self, point: Point, pixel_type: PixelType) -> (r: Result<
        (),
        WorldError,
    >)
        ensures
            r == if in_bounds(old(self)@, point.x as int, point.y as int) {
                Ok(())
            } else {
                Err(WorldError::OutOfBoundsWrite)
            },
            final(self)@ == with_cell(old(self)@, point.x as int, point.y as int, pixel_type),
            r is Err ==> final(self)@ == old(self)@,
            final(self)@.len() == old(self)@.len(),
    {
        match self.translate_to_bottom_left_coords(point) {
            Some(stored) => {
                proof {
                    use_type_invariant(&*self);
                }
                store(&mut self.world, stored.x, stored.y, Pixel::new(pixel_type));
                assert(self@ =~~= with_cell(
                    old(self)@,
                    point.x as int,
                    point.y as int,
                    pixel_type,
                ));
                Ok(())
            },
            None => Err(WorldError::OutOfBoundsWrite),
        }
    }

    /// The material of the neighbour of `point` towards `adj`; `OutOfBounds`
    /// when that neighbour lies outside the grid, on whichever side.
    pub fn get_pixel_type_adj(&self, point: Point, adj: Adjacency) -> (t: PixelType)
        ensures
            t == neighbour(self@, point.x as int, point.y as int, adj),
            !in_bounds(self@, point.x + adj.dx(), point.y + adj.dy()) ==> t
                == PixelType::OutOfBounds,
    {
        match self.determine_adj_coords(point, adj) {
            Some(adj_point) => self.get_pixel_type(adj_point),
            None => PixelType::OutOfBounds,
        }
    }

    /// Writes `pixel_type` at the neighbour of `point` towards `adj`. The
    /// write is refused, and the grid left as it was, when that neighbour
    /// lies outside the grid.
    pub fn set_pixel_type_adj(&mut self, point: Point, adj: Adjacency, pixel_type: PixelType) -> (r:
        Result<(), WorldError>)
        ensures
            r == if in_bounds(old(self)@, point.x + adj.dx(), point.y + adj.dy()) {
                Ok(())
            } else {
                Err(WorldError::OutOfBoundsWrite)
            },
            final(self)@ == with_cell(
                old(self)@,
                point.x + adj.dx(),
                point.y + adj.dy(),
                pixel_type,
            ),
            r is Err ==> final(self)@ == old(self)@,
            final(self)@.len() == old(self)@.len(),
    {
        match self.determine_adj_coords(point, adj) {
            Some(adj_point) => self.set_pixel_type(adj_point, pixel_type),
            None => {
                proof {
                    use_type_invariant(&*self);
                }
                Err(WorldError::OutOfBoundsWrite)
            },
        }
    }

    /// Exchanges the materials of the cell at `source_point` and of its
    /// neighbour towards `adj`. When either of the two reads as
    /// `OutOfBounds` the exchange is refused and no cell changes.
    pub fn swap_pixel_type(&mut self, source_point: &Point, adj: Adjacency) -> (r: Result<
        (),
        WorldError,
    >)
        ensures
            r == if cell(old(self)@, source_point.x as int, source_point.y as int)
                == PixelType::OutOfBounds || neighbour(
                old(self)@,
                source_point.x as int,
                source_point.y as int,
                adj,
            ) == PixelType::OutOfBounds {
                Err(WorldError::OutOfBoundsWrite)
            } else {
                Ok(())
            },
            final(self)@ == swapped(
                old(self)@,
                source_point.x as int,
                source_point.y as int,
                adj,
            ),
            r is Err ==> final(self)@ == old(self)@,
            final(self)@.len() == old(self)@.len(),
    {
        let target = self.determine_adj_coords(*source_point, adj);
        let source_type = self.get_pixel_type(*source_point);
        let target_type = self.get_pixel_type_adj(*source_point, adj);
        proof {
            use_type_invariant(&*self);
        }
        if source_type == PixelType::OutOfBounds || target_type == PixelType::OutOfBounds {
            return Err(WorldError::OutOfBoundsWrite);
        }
        match target {
            Some(target_point) => {
                match self.set_pixel_type(*source_point, target_type) {
                    Ok(()) => self.set_pixel_type(target_point, source_type),
                    Err(e) => Err(e),
                }
            },
            None => Err(WorldError::OutOfBoundsWrite),
        }
    }
}

} // verus!
