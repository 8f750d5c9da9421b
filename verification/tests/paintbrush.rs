use falling_sand::paintbrush::{
    is_over_draw_threshold, is_within_reach, paint_circle, paint_pixel, Radius,
};
use falling_sand::world::{PixelType, Point, World};

fn snapshot(world: &World) -> Vec<PixelType> {
    let mut cells = Vec::new();
    for x in 0..world.size() {
        for y in 0..world.size() {
            cells.push(world.get_pixel_type(Point::new(x, y)));
        }
    }
    cells
}

#[test]
fn full_density_fills_the_circle() {
    let mut world = World::new(5);
    paint_circle(
        &mut world,
        &Point::new(2, 2),
        Radius::new(12, 10),
        PixelType::Sand,
        100,
    );
    let painted = [(2, 2), (1, 2), (3, 2), (2, 1), (2, 3)];
    for x in 0..5 {
        for y in 0..5 {
            let expected = if painted.contains(&(x, y)) {
                PixelType::Sand
            } else {
                PixelType::Air
            };
            assert_eq!(
                expected,
                world.get_pixel_type(Point::new(x, y)),
                "at ({}, {})",
                x,
                y
            );
        }
    }
}

#[test]
fn radius_is_a_strict_bound() {
    let mut world = World::new(7);
    paint_circle(
        &mut world,
        &Point::new(3, 3),
        Radius::new(2, 1),
        PixelType::Water,
        100,
    );
    for x in 0..7usize {
        for y in 0..7usize {
            let dx = x.abs_diff(3);
            let dy = y.abs_diff(3);
            let expected = if dx * dx + dy * dy < 4 {
                PixelType::Water
            } else {
                PixelType::Air
            };
            assert_eq!(expected, world.get_pixel_type(Point::new(x, y)));
        }
    }
    assert_eq!(PixelType::Air, world.get_pixel_type(Point::new(5, 3)));
    assert_eq!(PixelType::Water, world.get_pixel_type(Point::new(4, 4)));
}

#[test]
fn stroke_overwrites_what_was_there() {
    let mut world = World::new(3);
    world
        .set_pixel_type(Point::new(1, 1), PixelType::Solid)
        .unwrap();
    world
        .set_pixel_type(Point::new(0, 0), PixelType::Solid)
        .unwrap();
    paint_circle(
        &mut world,
        &Point::new(1, 1),
        Radius::new(1, 2),
        PixelType::Air,
        100,
    );
    assert_eq!(PixelType::Air, world.get_pixel_type(Point::new(1, 1)));
    assert_eq!(PixelType::Solid, world.get_pixel_type(Point::new(0, 0)));
}

#[test]
fn zero_density_paints_nothing() {
    let mut world = World::new(5);
    world
        .set_pixel_type(Point::new(2, 2), PixelType::Solid)
        .unwrap();
    let before = snapshot(&world);
    paint_circle(
        &mut world,
        &Point::new(2, 2),
        Radius::new(3, 1),
        PixelType::Sand,
        0,
    );
    assert_eq!(before, snapshot(&world));
}

#[test]
fn zero_radius_paints_nothing() {
    let mut world = World::new(5);
    paint_circle(
        &mut world,
        &Point::new(2, 2),
        Radius::new(0, 1),
        PixelType::Sand,
        100,
    );
    assert_eq!(vec![PixelType::Air; 25], snapshot(&world));
}

#[test]
fn density_above_a_hundred_is_a_full_fill() {
    let mut world = World::new(3);
    paint_circle(
        &mut world,
        &Point::new(1, 1),
        Radius::new(10, 1),
        PixelType::Water,
        250,
    );
    assert_eq!(vec![PixelType::Water; 9], snapshot(&world));
}

#[test]
fn partial_density_paints_within_the_circle_only() {
    for _ in 0..20 {
        let mut world = World::new(9);
        paint_circle(
            &mut world,
            &Point::new(4, 4),
            Radius::new(5, 2),
            PixelType::Sand,
            50,
        );
        for x in 0..9usize {
            for y in 0..9usize {
                let dx = x.abs_diff(4);
                let dy = y.abs_diff(4);
                let cell = world.get_pixel_type(Point::new(x, y));
                if 4 * (dx * dx + dy * dy) < 25 {
                    assert!(cell == PixelType::Sand || cell == PixelType::Air);
                } else {
                    assert_eq!(PixelType::Air, cell);
                }
            }
        }
    }
}

#[test]
fn centre_outside_the_grid_still_reaches_in() {
    let mut world = World::new(3);
    paint_circle(
        &mut world,
        &Point::new(3, 1),
        Radius::new(6, 5),
        PixelType::Solid,
        100,
    );
    for x in 0..3 {
        for y in 0..3 {
            let expected = if (x, y) == (2, 1) {
                PixelType::Solid
            } else {
                PixelType::Air
            };
            assert_eq!(expected, world.get_pixel_type(Point::new(x, y)));
        }
    }
}

#[test]
fn stroke_on_an_empty_world_does_nothing() {
    let mut world = World::new(0);
    paint_circle(
        &mut world,
        &Point::new(0, 0),
        Radius::new(1, 1),
        PixelType::Sand,
        100,
    );
    assert_eq!(0, world.size());
}

#[test]
fn reach_compares_squared_distances() {
    let centre = Point::new(2, 2);
    let radius = Radius::new(6, 5);
    assert!(is_within_reach(&centre, radius, Point::new(2, 2)));
    assert!(is_within_reach(&centre, radius, Point::new(2, 3)));
    assert!(is_within_reach(&centre, radius, Point::new(1, 2)));
    assert!(!is_within_reach(&centre, radius, Point::new(3, 3)));
    assert!(!is_within_reach(&centre, radius, Point::new(1, 1)));
    assert!(!is_within_reach(&centre, radius, Point::new(2, 4)));

    // 3-4-5: the cell lies at distance 5 exactly.
    let origin = Point::new(0, 0);
    assert!(!is_within_reach(&origin, Radius::new(5, 1), Point::new(3, 4)));
    assert!(is_within_reach(&origin, Radius::new(501, 100), Point::new(3, 4)));
    assert!(!is_within_reach(&origin, Radius::new(499, 100), Point::new(3, 4)));
}

#[test]
fn reach_at_the_limits_of_the_numbers() {
    let far = Point::new(usize::MAX, usize::MAX);
    let origin = Point::new(0, 0);
    let widest = Radius::new(u32::MAX, 1);
    assert!(!is_within_reach(&origin, widest, far));
    assert!(!is_within_reach(&far, widest, origin));
    assert!(is_within_reach(&far, Radius::new(1, u32::MAX), far));
    assert!(!is_within_reach(
        &far,
        Radius::new(1, u32::MAX),
        Point::new(usize::MAX - 1, usize::MAX)
    ));
    assert!(is_within_reach(
        &origin,
        widest,
        Point::new(u32::MAX as usize - 1, 0)
    ));
    assert!(!is_within_reach(
        &origin,
        widest,
        Point::new(u32::MAX as usize, 0)
    ));
}

#[test]
fn zero_denominator_is_a_reach_without_bound() {
    let origin = Point::new(0, 0);
    assert!(is_within_reach(
        &origin,
        Radius::new(1, 0),
        Point::new(usize::MAX, usize::MAX)
    ));
    assert!(!is_within_reach(&origin, Radius::new(0, 0), origin));
}

#[test]
fn threshold_reads_the_roll_as_a_fraction() {
    // Half of the rolls pass at fifty per cent.
    assert!(is_over_draw_threshold(50, 0));
    assert!(is_over_draw_threshold(50, 0x7fff_ffff));
    assert!(!is_over_draw_threshold(50, 0x8000_0000));
    assert!(!is_over_draw_threshold(50, u32::MAX));
    // One per cent of 2^32 is 42949672.96.
    assert!(is_over_draw_threshold(1, 42_949_672));
    assert!(!is_over_draw_threshold(1, 42_949_673));
    // Ninety-nine per cent of 2^32 is 4252017623.04.
    assert!(is_over_draw_threshold(99, 4_252_017_623));
    assert!(!is_over_draw_threshold(99, 4_252_017_624));
}

#[test]
fn threshold_at_the_ends_of_the_scale() {
    for roll in [0, 1, 0x8000_0000, u32::MAX] {
        assert!(!is_over_draw_threshold(0, roll));
        assert!(is_over_draw_threshold(100, roll));
        assert!(is_over_draw_threshold(101, roll));
        assert!(is_over_draw_threshold(u32::MAX, roll));
    }
}

#[test]
fn pixel_is_painted_when_the_roll_is_low_enough() {
    let mut world = World::new(3);
    assert!(paint_pixel(
        &mut world,
        Point::new(1, 2),
        PixelType::Sand,
        50,
        0x7fff_ffff
    ));
    for x in 0..3 {
        for y in 0..3 {
            let expected = if (x, y) == (1, 2) {
                PixelType::Sand
            } else {
                PixelType::Air
            };
            assert_eq!(expected, world.get_pixel_type(Point::new(x, y)));
        }
    }
}

#[test]
fn pixel_is_left_alone_when_the_roll_is_too_high() {
    let mut world = World::new(3);
    world
        .set_pixel_type(Point::new(1, 2), PixelType::Solid)
        .unwrap();
    let before = snapshot(&world);
    assert!(!paint_pixel(
        &mut world,
        Point::new(1, 2),
        PixelType::Sand,
        50,
        0x8000_0000
    ));
    assert!(!paint_pixel(
        &mut world,
        Point::new(1, 2),
        PixelType::Sand,
        0,
        0
    ));
    assert_eq!(before, snapshot(&world));
}

#[test]
fn pixel_outside_the_grid_is_not_painted() {
    let mut world = World::new(3);
    assert!(!paint_pixel(
        &mut world,
        Point::new(3, 0),
        PixelType::Sand,
        100,
        0
    ));
    assert!(!paint_pixel(
        &mut world,
        Point::new(0, usize::MAX),
        PixelType::Sand,
        100,
        0
    ));
    assert_eq!(vec![PixelType::Air; 9], snapshot(&world));
}

#[test]
fn radius_keeps_its_fraction() {
    let radius = Radius::new(6, 5);
    assert_eq!(6, radius.numerator);
    assert_eq!(5, radius.denominator);
}
