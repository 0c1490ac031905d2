use marching_squares::clock::Clock;
use marching_squares::clock::MICROS_PER_UNIT;
use marching_squares::contour::Segment;
use marching_squares::contour::resolve;
use marching_squares::grid::Grid;
use marching_squares::grid::PixelLine;
use marching_squares::grid::cell_lines;
use marching_squares::grid::frame_lines;
use marching_squares::grid::place_segment;
use marching_squares::pattern::square_to_num;

use noise::NoiseFn;
use noise::OpenSimplex;

/// Reduces a noise sample to the corner sign fed to the packer, as the
/// application does: on or above the contour counts as inside.
fn sign_of(v: f64) -> i64 {
    if v >= 0.0 {
        1
    } else {
        -1
    }
}

#[test]
fn test_square_to_num() {
    let one = vec![0, 0, 0, 1];
    let three = vec![0, 0, 1, 1];

    assert_eq!(square_to_num(one), 1);
    assert_eq!(square_to_num(three), 3);
}

#[test]
fn packs_all_corners_set_and_none() {
    assert_eq!(square_to_num(vec![1, 1, 1, 1]), 15);
    assert_eq!(square_to_num(vec![0, 0, 0, 0]), 0);
}

#[test]
fn packs_most_significant_corner_first() {
    assert_eq!(square_to_num(vec![1, 0, 0, 0]), 8);
    assert_eq!(square_to_num(vec![0, 1, 0, 0]), 4);
    assert_eq!(square_to_num(vec![0, 0, 1, 0]), 2);
}

#[test]
fn packer_ignores_values_other_than_one() {
    assert_eq!(square_to_num(vec![-1, -1, -1, -1]), 0);
    assert_eq!(square_to_num(vec![1, -1, 7, 1]), 9);
}

#[test]
fn uniform_patterns_yield_no_segments() {
    assert_eq!(resolve(0).len(), 0);
    assert_eq!(resolve(15).len(), 0);
}

#[test]
fn segment_counts_for_every_pattern() {
    for p in 0..16i64 {
        let n = resolve(p).len();
        if p == 0 || p == 15 {
            assert_eq!(n, 0);
        } else if p == 5 || p == 10 {
            assert_eq!(n, 2);
        } else {
            assert_eq!(n, 1);
        }
    }
}

#[test]
fn complement_patterns_share_segments() {
    for p in 0..16i64 {
        if p == 5 || p == 10 {
            continue;
        }
        let a = resolve(p);
        let b = resolve(15 - p);
        assert_eq!(a, b);
    }
}

#[test]
fn saddle_patterns_carry_opposite_topologies() {
    let five = resolve(5);
    let ten = resolve(10);
    assert_eq!(
        five,
        vec![
            Segment { x0: 1, y0: 2, x1: 2, y1: 1 },
            Segment { x0: 0, y0: 1, x1: 1, y1: 0 },
        ]
    );
    assert_eq!(
        ten,
        vec![
            Segment { x0: 0, y0: 1, x1: 1, y1: 2 },
            Segment { x0: 1, y0: 0, x1: 2, y1: 1 },
        ]
    );
    assert_ne!(five, ten);
}

#[test]
fn contour_table_matches_the_fixed_entries() {
    assert_eq!(resolve(1), vec![Segment { x0: 0, y0: 1, x1: 1, y1: 2 }]);
    assert_eq!(resolve(2), vec![Segment { x0: 1, y0: 2, x1: 2, y1: 1 }]);
    assert_eq!(resolve(3), vec![Segment { x0: 0, y0: 1, x1: 2, y1: 1 }]);
    assert_eq!(resolve(4), vec![Segment { x0: 1, y0: 0, x1: 2, y1: 1 }]);
    assert_eq!(resolve(6), vec![Segment { x0: 1, y0: 0, x1: 1, y1: 2 }]);
    assert_eq!(resolve(7), vec![Segment { x0: 0, y0: 1, x1: 1, y1: 0 }]);
    assert_eq!(resolve(8), vec![Segment { x0: 0, y0: 1, x1: 1, y1: 0 }]);
}

#[test]
fn placement_scales_by_half_cells_and_translates() {
    let s = Segment { x0: 0, y0: 1, x1: 1, y1: 0 };
    let line = place_segment(&s, 3, 2, 10);
    assert_eq!(line, PixelLine { x0: 30, y0: 25, x1: 35, y1: 20 });
}

#[test]
fn cell_lines_places_every_segment_of_the_pattern() {
    let lines = cell_lines(5, 1, 1, 10);
    assert_eq!(
        lines,
        vec![
            PixelLine { x0: 15, y0: 20, x1: 20, y1: 15 },
            PixelLine { x0: 10, y0: 15, x1: 15, y1: 10 },
        ]
    );
}

#[test]
fn grid_dimensions_are_derived_from_the_canvas() {
    let g = Grid::new(800, 600, 10);
    assert_eq!(g.cells_x, 80);
    assert_eq!(g.cells_y, 60);
    assert_eq!(g.cell_size, 10);
}

#[test]
fn clock_accumulates_updates_at_the_fixed_rate() {
    let mut c = Clock::new();
    assert_eq!(c.z_micros, 0);
    let ticks: [u64; 3] = [500000, 250000, 125000];
    let mut sum: u64 = 0;
    let mut last: u64 = 0;
    for dt in ticks {
        c.update(dt);
        sum += dt;
        assert!(c.z_micros >= last);
        last = c.z_micros;
    }
    assert_eq!(c.z_micros, sum);
    assert_eq!(MICROS_PER_UNIT, 1000000);
}

#[test]
fn noise_field_is_deterministic() {
    let a = OpenSimplex::new(0);
    let b = OpenSimplex::new(0);
    let p = [0.4, 1.2, 0.35];
    assert_eq!(a.get(p), a.get(p));
    assert_eq!(a.get(p), b.get(p));
}

#[test]
fn sampled_pattern_is_reproducible() {
    let noise = OpenSimplex::new(0);
    let step = 0.2;
    let z = 1.5;
    let mut patterns: Vec<i64> = Vec::new();
    for _ in 0..2 {
        let corners = [(3, 4), (4, 4), (4, 5), (3, 5)];
        let mut square: Vec<i64> = Vec::new();
        for (i, j) in corners {
            square.push(sign_of(noise.get([i as f64 * step, j as f64 * step, z])));
        }
        patterns.push(square_to_num(square));
    }
    assert_eq!(patterns[0], patterns[1]);
}

#[test]
fn all_corners_below_threshold_draw_nothing() {
    let samples = [-0.1, -0.1, -0.1, -0.1];
    let mut square: Vec<i64> = Vec::new();
    for v in samples {
        square.push(sign_of(v));
    }
    let pattern = square_to_num(square);
    assert_eq!(pattern, 0);
    assert_eq!(resolve(pattern).len(), 0);
}

#[test]
fn single_corner_above_threshold_draws_one_segment() {
    let samples = [0.2, -0.2, -0.2, -0.2];
    let mut square: Vec<i64> = Vec::new();
    for v in samples {
        square.push(sign_of(v));
    }
    let pattern = square_to_num(square);
    assert_eq!(pattern, 8);
    let segs = resolve(pattern);
    assert_eq!(segs, vec![Segment { x0: 0, y0: 1, x1: 1, y1: 0 }]);
}

#[test]
fn frame_walk_visits_cells_in_drawing_order() {
    // A 2 x 1 grid of cells: 3 x 2 corner signs, column-major.
    let g = Grid { cells_x: 2, cells_y: 1, cell_size: 10 };
    // Corner (0,0) is the only one inside: cell (0,0) has pattern 8,
    // the others pattern 0.
    let signs: Vec<i64> = vec![1, -1, -1, -1, -1, -1];
    let lines = frame_lines(&signs, &g);
    assert_eq!(lines, vec![PixelLine { x0: 0, y0: 5, x1: 5, y1: 0 }]);
}

#[test]
fn frame_walk_orders_columns_left_to_right() {
    // A 1 x 2 column of cells, every corner inside: two uniform cells.
    let g = Grid { cells_x: 1, cells_y: 2, cell_size: 10 };
    let signs: Vec<i64> = vec![1, 1, 1, 1, 1, 1];
    assert_eq!(frame_lines(&signs, &g).len(), 0);

    // Flip one interior corner, corner (0,1): cell (0,0) sees corner3
    // cleared (pattern 14), cell (0,1) sees corner0 cleared (pattern 7).
    let signs2: Vec<i64> = vec![1, -1, 1, 1, 1, 1];
    let lines = frame_lines(&signs2, &g);
    assert_eq!(
        lines,
        vec![
            PixelLine { x0: 0, y0: 5, x1: 5, y1: 10 },
            PixelLine { x0: 0, y0: 15, x1: 5, y1: 10 },
        ]
    );
}
