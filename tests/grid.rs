use field_sketch::config::ConfigError;
use field_sketch::geometry::{Point, Rgb};
use field_sketch::grid::{create_grid, PrimitiveRegistry};

const BLACK: Rgb = Rgb { r: 0, g: 0, b: 0 };
const ORANGE_RED: Rgb = Rgb { r: 255, g: 69, b: 0 };

fn grid(spacing: i64, width: u32, height: u32) -> PrimitiveRegistry {
    create_grid(spacing, width, height, ORANGE_RED, BLACK).unwrap()
}

fn second_color_matrix(g: &PrimitiveRegistry) -> Vec<Vec<bool>> {
    let mut m = Vec::new();
    for r in 0..g.rows {
        let mut row = Vec::new();
        for c in 0..g.cols {
            row.push(g.get(r * g.cols + c).color == BLACK);
        }
        m.push(row);
    }
    m
}

#[test]
fn latch_pattern_three_by_three() {
    let g = grid(8, 24, 24);
    assert_eq!((g.rows, g.cols, g.len()), (3, 3, 9));
    assert_eq!(g.get(0).color, ORANGE_RED);
    let expected = vec![
        vec![false, true, false],
        vec![false, true, false],
        vec![false, true, false],
    ];
    assert_eq!(second_color_matrix(&g), expected);
}

#[test]
fn latch_pattern_even_columns_is_checkerboard() {
    let g = grid(8, 32, 24);
    assert_eq!((g.rows, g.cols), (3, 4));
    let expected = vec![
        vec![false, true, false, true],
        vec![true, false, true, false],
        vec![false, true, false, true],
    ];
    assert_eq!(second_color_matrix(&g), expected);
}

#[test]
fn spacing_wider_than_bounds_gives_one_primitive() {
    let g = grid(100, 50, 30);
    assert_eq!(g.len(), 1);
    assert_eq!(g.get(0).origin, Point::new(0, 0));
    assert_eq!(g.get(0).color, ORANGE_RED);
}

#[test]
fn non_positive_spacing_is_refused() {
    assert_eq!(create_grid(0, 10, 10, ORANGE_RED, BLACK).unwrap_err(), ConfigError::NonPositiveSpacing);
    assert_eq!(create_grid(-8, 10, 10, ORANGE_RED, BLACK).unwrap_err(), ConfigError::NonPositiveSpacing);
}

#[test]
fn empty_bounds_give_no_primitives() {
    assert_eq!(grid(8, 0, 40).len(), 0);
    assert_eq!(grid(8, 40, 0).len(), 0);
}

#[test]
fn origins_follow_the_lattice_in_row_major_order() {
    let g = grid(8, 20, 9);
    assert_eq!((g.rows, g.cols), (2, 3));
    let origins: Vec<Point> = (0..g.len()).map(|i| g.get(i).origin).collect();
    let expected = vec![
        Point::new(0, 0),
        Point::new(8, 0),
        Point::new(16, 0),
        Point::new(0, 8),
        Point::new(8, 8),
        Point::new(16, 8),
    ];
    assert_eq!(origins, expected);
    for i in 0..g.len() {
        assert_eq!(g.get(i).position, g.get(i).origin);
    }
}

#[test]
fn update_moves_one_primitive() {
    let mut g = grid(10, 30, 20);
    g.update(4, Point::new(-3, 7));
    assert_eq!(g.get(4).position, Point::new(-3, 7));
    assert_eq!(g.get(4).origin, Point::new(10, 10));
    assert_eq!(g.get(3).position, g.get(3).origin);
}

#[test]
fn animate_displaces_from_origin() {
    let mut g = grid(10, 20, 20);
    g.animate(&vec![5, -5, 0, 12]);
    let positions: Vec<Point> = (0..g.len()).map(|i| g.get(i).position).collect();
    assert_eq!(
        positions,
        vec![Point::new(5, 0), Point::new(5, 0), Point::new(0, 10), Point::new(22, 10)]
    );
}

#[test]
fn animate_ignores_earlier_ticks() {
    let mut fresh = grid(10, 20, 20);
    let mut replayed = grid(10, 20, 20);
    replayed.animate(&vec![100, 200, 300, 400]);
    replayed.update(2, Point::new(-50, -50));
    replayed.animate(&vec![1, 2, 3, 4]);
    fresh.animate(&vec![1, 2, 3, 4]);
    for i in 0..fresh.len() {
        assert_eq!(fresh.get(i), replayed.get(i));
    }
    let before: Vec<Point> = (0..fresh.len()).map(|i| fresh.get(i).position).collect();
    fresh.animate(&vec![1, 2, 3, 4]);
    let after: Vec<Point> = (0..fresh.len()).map(|i| fresh.get(i).position).collect();
    assert_eq!(before, after);
}
