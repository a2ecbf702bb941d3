use htree::geometry::half_len;
use htree::geometry::thickness_e;
use htree::geometry::Color;
use htree::geometry::Frac;
use htree::geometry::Point;
use htree::geometry::Primitive;
use htree::renderer::HtreeApp;

fn frac(units: i64, root_units: i64) -> Frac {
    Frac { units, root_units }
}

fn origin() -> Point {
    Point { x: frac(0, 0), y: frac(0, 0) }
}

fn app_with_depth(levels: usize) -> HtreeApp {
    let mut app = HtreeApp::new();
    app.set_max_level(levels);
    app
}

#[test]
fn new_and_default_start_at_depth_one() {
    assert_eq!(HtreeApp::new().max_level(), 1);
    assert_eq!(HtreeApp::default().max_level(), 1);
}

#[test]
fn set_max_level_clamps_to_slider_range() {
    let mut app = HtreeApp::new();
    app.set_max_level(0);
    assert_eq!(app.max_level(), 1);
    app.set_max_level(17);
    assert_eq!(app.max_level(), 16);
    app.set_max_level(7);
    assert_eq!(app.max_level(), 7);
    app.set_max_level(16);
    assert_eq!(app.max_level(), 16);
}

#[test]
fn half_len_values_are_exact() {
    assert_eq!(half_len(0), frac(256, 0));
    assert_eq!(half_len(1), frac(0, 256));
    assert_eq!(half_len(2), frac(128, 0));
    assert_eq!(half_len(3), frac(0, 128));
    assert_eq!(half_len(8), frac(16, 0));
    assert_eq!(half_len(15), frac(0, 2));
    assert_eq!(half_len(16), frac(1, 0));
}

#[test]
fn half_len_scales_by_inverse_root_two_exactly() {
    // Writing (u, r) for u + r / sqrt(2), the next level times sqrt(2) must
    // give back the previous level with no rounding.
    for level in 0usize..16 {
        let prev = half_len(level);
        let next = half_len(level + 1);
        assert_eq!(2 * next.units, prev.root_units);
        assert_eq!(next.root_units, prev.units);
    }
}

#[test]
fn thickness_follows_the_quarter_rule() {
    // max(1, (16 - level) / 4) pixels, in eighths of a pixel.
    assert_eq!(thickness_e(0), 32);
    assert_eq!(thickness_e(1), 30);
    assert_eq!(thickness_e(4), 24);
    assert_eq!(thickness_e(11), 10);
    assert_eq!(thickness_e(12), 8);
    assert_eq!(thickness_e(15), 8);
}

#[test]
fn thickness_never_grows_and_never_drops_below_one_pixel() {
    for level in 0usize..15 {
        assert!(thickness_e(level + 1) <= thickness_e(level));
    }
    for level in 0usize..16 {
        assert!(thickness_e(level) >= 8);
    }
}

#[test]
fn depth_one_draws_one_split_and_two_markers() {
    let app = app_with_depth(1);
    let prims = app.draw(origin());
    let expected = vec![
        Primitive::HLine {
            x1: frac(-256, 0),
            x2: frac(0, 0),
            y: frac(0, 0),
            width_e: 32,
            color: Color::Red,
        },
        Primitive::HLine {
            x1: frac(0, 0),
            x2: frac(256, 0),
            y: frac(0, 0),
            width_e: 32,
            color: Color::Green,
        },
        Primitive::Disc { x: frac(0, 0), y: frac(0, 0), radius_e: 32, color: Color::Black },
        Primitive::Disc { x: frac(0, 0), y: frac(0, 0), radius_e: 16, color: Color::Yellow },
    ];
    assert_eq!(prims, expected);
}

#[test]
fn depth_two_draws_three_branches() {
    let app = app_with_depth(2);
    let prims = app.draw(origin());
    assert_eq!(prims.len(), 12);
    let hlines = prims
        .iter()
        .filter(|p| matches!(p, Primitive::HLine { .. }))
        .count();
    let vlines = prims
        .iter()
        .filter(|p| matches!(p, Primitive::VLine { .. }))
        .count();
    let discs = prims
        .iter()
        .filter(|p| matches!(p, Primitive::Disc { .. }))
        .count();
    assert_eq!(hlines, 2);
    assert_eq!(vlines, 4);
    assert_eq!(discs, 6);
    // The left endpoint spawns a terminal vertical branch right after the
    // root's two half-segments.
    assert_eq!(
        prims[2],
        Primitive::VLine {
            x: frac(-256, 0),
            y1: frac(0, -256),
            y2: frac(0, 0),
            width_e: 30,
            color: Color::Red,
        }
    );
    assert_eq!(
        prims[3],
        Primitive::VLine {
            x: frac(-256, 0),
            y1: frac(0, 0),
            y2: frac(0, 256),
            width_e: 30,
            color: Color::Green,
        }
    );
    // Each of the three branches ends with its pair of marker discs.
    assert_eq!(
        prims[11],
        Primitive::Disc { x: frac(0, 0), y: frac(0, 0), radius_e: 16, color: Color::Yellow }
    );
}

#[test]
fn primitive_count_is_a_fixed_function_of_depth() {
    for depth in 1usize..=16 {
        let app = app_with_depth(depth);
        let prims = app.draw(origin());
        let expected: u64 = 4 * ((1u64 << depth) - 1);
        assert_eq!(prims.len() as u64, expected);
    }
}

#[test]
fn primitive_count_does_not_depend_on_the_center() {
    let app = app_with_depth(5);
    let at_origin = app.draw(origin());
    let shifted = app.draw(Point { x: frac(100000, -3), y: frac(-77, 12) });
    assert_eq!(at_origin.len(), shifted.len());
}

#[test]
fn branch_at_the_configured_depth_emits_nothing() {
    let app = app_with_depth(3);
    let mut out: Vec<Primitive> = Vec::new();
    app.draw_horizontal(origin(), 3, &mut out);
    assert!(out.is_empty());
    app.draw_vertical(origin(), 3, &mut out);
    assert!(out.is_empty());
}

#[test]
fn drawing_twice_gives_identical_sequences() {
    let app = app_with_depth(6);
    let center = Point { x: frac(12, 34), y: frac(-56, 78) };
    let first = app.draw(center);
    let second = app.draw(center);
    assert_eq!(first, second);
}

#[test]
fn drawing_at_an_offset_center_shifts_the_root_split() {
    let app = app_with_depth(1);
    let prims = app.draw(Point { x: frac(1000, 0), y: frac(-500, 0) });
    assert_eq!(
        prims[0],
        Primitive::HLine {
            x1: frac(744, 0),
            x2: frac(1000, 0),
            y: frac(-500, 0),
            width_e: 32,
            color: Color::Red,
        }
    );
}
