//! The round brush that puts material into the grid.

use crate::grid::{cell, in_bounds, with_cell};
use crate::world::{PixelType, Point, World};
use rand::Rng;
use vstd::prelude::*;

verus! {

/// The reach of a brush, in cells, as the fraction `numerator /
/// denominator`. A denominator of zero under a numerator that is not zero
/// stands for a reach without bound.
#[derive(Debug, Clone, Copy)]
pub struct Radius {
    pub numerator: u32,
    pub denominator: u32,
}

impl Radius {
    pub fn new(numerator: u32, denominator: u32) -> (radius: Self)
        ensures
            radius.numerator == numerator,
            radius.denominator == denominator,
    {
        Self { numerator, denominator }
    }
}

/// The cell at `(x, y)` lies closer to `center` than `radius`: the
/// Euclidean distance between the two, compared by its square.
pub open spec fn within_reach(center: Point, radius: Radius, x: int, y: int) -> bool {
    let dx = x - center.x;
    let dy = y - center.y;
    (dx * dx + dy * dy) * (radius.denominator * radius.denominator) < radius.numerator
        * radius.numerator
}

/// A roll lets a cell be painted under a density of `draw_percentage` per
/// cent: the roll, read as a fraction of the `2^32` values it can take, is
/// below the density. No roll does under a density of zero, and every roll
/// does under one of a hundred or more.
pub open spec fn roll_accepts(draw_percentage: u32, roll: u32) -> bool {
    roll * 100 < draw_percentage * 0x1_0000_0000
}

/// What a stroke may leave in a cell that held `before`. A cell out of
/// reach keeps what it held, and so does every cell under a density of
/// zero. A cell within reach holds the brush's material under a density of
/// a hundred or more, and under any density between the two it holds that
/// material or what it held, as chance has it.
pub open spec fn stroke_allows(
    before: PixelType,
    after: PixelType,
    reached: bool,
    pixel_type: PixelType,
    draw_percentage: u32,
) -> bool {
    if !reached || draw_percentage == 0 {
        after == before
    } else if draw_percentage >= 100 {
        after == pixel_type
    } else {
        after == before || after == pixel_type
    }
}

/// A number drawn from the generator that `rand::thread_rng` hands out, by
/// `Rng::gen`. Any value may come back, so nothing is claimed of it.
#[verifier::external_body]
fn random_roll() -> (roll: u32) {
    rand::thread_rng().gen()
}

/// The distance between two coordinates on one axis.
fn span(a: usize, b: usize) -> (d: usize)
    ensures
        d == if a >= b {
            a - b
        } else {
            b - a
        },
{
    if a >= b {
        a - b
    } else {
        b - a
    }
}

/// Decides whether `target` lies closer to `center` than `radius`.
pub fn is_within_reach(center: &Point, radius: Radius, target: Point) -> (reached: bool)
    ensures
        reached == within_reach(*center, radius, target.x as int, target.y as int),
{
    let num = radius.numerator as u128;
    let den = radius.denominator as u128;
    let dx = span(target.x, center.x) as u128;
    let dy = span(target.y, center.y) as u128;
    assert(dx * den <= 0xffff_ffff_ffff_ffff * 0xffff_ffff && dy * den <= 0xffff_ffff_ffff_ffff
        * 0xffff_ffff) by (nonlinear_arith)
        requires
            dx <= 0xffff_ffff_ffff_ffff,
            dy <= 0xffff_ffff_ffff_ffff,
            den <= 0xffff_ffff,
    ;
    let a = dx * den;
    let b = dy * den;
    proof {
        let sx = target.x - center.x;
        let sy = target.y - center.y;
        assert((sx * sx + sy * sy) * (den * den) == a * a + b * b) by (nonlinear_arith)
            requires
                a == dx * den,
                b == dy * den,
                dx == sx || dx == -sx,
                dy == sy || dy == -sy,
        ;
        assert(a >= num ==> a * a >= num * num) by (nonlinear_arith)
            requires
                num >= 0,
        ;
        assert(b >= num ==> b * b >= num * num) by (nonlinear_arith)
            requires
                num >= 0,
        ;
        assert(a * a >= 0 && b * b >= 0) by (nonlinear_arith);
        assert(a < num && b < num ==> a * a + b * b <= 2 * 0xffff_ffff * 0xffff_ffff) by (
            nonlinear_arith)
            requires
                0 <= a,
                0 <= b,
                num <= 0xffff_ffff,
        ;
        assert(num * num <= 0xffff_ffff * 0xffff_ffff) by (nonlinear_arith)
            requires
                0 <= num <= 0xffff_ffff,
        ;
    }
    if a >= num || b >= num {
        false
    } else {
        a * a + b * b < num * num
    }
}

/// Decides whether a roll lets a cell be painted under a density of
/// `draw_percentage` per cent.
pub fn is_over_draw_threshold(draw_percentage: u32, roll: u32) -> (accepted: bool)
    ensures
        accepted == roll_accepts(draw_percentage, roll),
        draw_percentage == 0 ==> !accepted,
        draw_percentage >= 100 ==> accepted,
{
    (roll as u64) * 100 < (draw_percentage as u64) * 0x1_0000_0000
}

/// Paints `pixel_type` at `point` if `roll` lets it be painted under a
/// density of `draw_percentage` per cent, and leaves the grid as it was if
/// not, or if the grid has no cell at `point`.
pub fn paint_pixel(
    world: &mut World,
    point: Point,
    pixel_type: PixelType,
    draw_percentage: u32,
    roll: u32,
) -> (painted: bool)
    ensures
        painted == (roll_accepts(draw_percentage, roll) && in_bounds(
            old(world)@,
            point.x as int,
            point.y as int,
        )),
        final(world)@ == if roll_accepts(draw_percentage, roll) {
            with_cell(old(world)@, point.x as int, point.y as int, pixel_type)
        } else {
            old(world)@
        },
        final(world)@.len() == old(world)@.len(),
{
    if is_over_draw_threshold(draw_percentage, roll) {
        world.set_pixel_type(point, pixel_type).is_ok()
    } else {
        false
    }
}

/// Paints `pixel_type` into the cells that lie closer to `point` than
/// `radius`, each of them with a chance of `draw_percentage` in a hundred
/// and independently of the others. Which cells a density between nought
/// and a hundred picks is left to chance; that no cell out of reach is
/// touched, and that a density of a hundred fills the circle, is not.
pub fn paint_circle(
    world: &mut World,
    point: &Point,
    radius: Radius,
    pixel_type: PixelType,
    draw_percentage: u32,
)
    ensures
        final(world)@.len() == old(world)@.len(),
        forall|x: int, y: int|
            in_bounds(old(world)@, x, y) ==> stroke_allows(
                cell(old(world)@, x, y),
                #[trigger] cell(final(world)@, x, y),
                within_reach(*point, radius, x, y),
                pixel_type,
                draw_percentage,
            ),
{
    let size = world.size();
    let ghost start = world@;
    proof {
        world.lemma_view_is_square();
    }
    let mut i: usize = 0;
    while i < size
        invariant
            i <= size,
            size == start.len(),
            world@.len() == size,
            forall|x: int, y: int|
                0 <= x < i && 0 <= y < size ==> stroke_allows(
                    cell(start, x, y),
                    #[trigger] cell(world@, x, y),
                    within_reach(*point, radius, x, y),
                    pixel_type,
                    draw_percentage,
                ),
            forall|x: int, y: int|
                i <= x < size && 0 <= y < size ==> #[trigger] cell(world@, x, y) == cell(
                    start,
                    x,
                    y,
                ),
        decreases size - i,
    {
        let mut j: usize = 0;
        while j < size
            invariant
                i < size,
                j <= size,
                size == start.len(),
                world@.len() == size,
                forall|x: int, y: int|
                    (0 <= x < i && 0 <= y < size) || (x == i && 0 <= y < j) ==> stroke_allows(
                        cell(start, x, y),
                        #[trigger] cell(world@, x, y),
                        within_reach(*point, radius, x, y),
                        pixel_type,
                        draw_percentage,
                    ),
                forall|x: int, y: int|
                    (i < x < size && 0 <= y < size) || (x == i && j <= y < size)
                        ==> #[trigger] cell(world@, x, y) == cell(start, x, y),
            decreases size - j,
        {
            let ghost before = world@;
            proof {
                world.lemma_view_is_square();
            }
            if is_within_reach(point, radius, Point::new(i, j)) {
                let painted = paint_pixel(
                    world,
                    Point::new(i, j),
                    pixel_type,
                    draw_percentage,
                    random_roll(),
                );
                assert forall|x: int, y: int| in_bounds(before, x, y) implies #[trigger] cell(
                    world@,
                    x,
                    y,
                ) == if painted && x == i && y == j {
                    pixel_type
                } else {
                    cell(before, x, y)
                } by {}
            }
            j += 1;
        }
        i += 1;
    }
}

} // verus!
