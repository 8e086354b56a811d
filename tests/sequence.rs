use field_sketch::tiles::atlas_index;
use field_sketch::bands::{band_hue, band_speed};
use field_sketch::sequence::{close_loop, fibonacci};

#[test]
fn fibonacci_values() {
    assert_eq!(fibonacci(0), 0);
    assert_eq!(fibonacci(1), 1);
    assert_eq!(fibonacci(2), 1);
    assert_eq!(fibonacci(7), 13);
    assert_eq!(fibonacci(10), 55);
    assert_eq!(fibonacci(93), 12200160415121876738);
}

#[test]
fn close_loop_repeats_first_point() {
    assert_eq!(close_loop(vec![(1, 2), (3, 4), (5, 6)]), vec![(1, 2), (3, 4), (5, 6), (1, 2)]);
    assert_eq!(close_loop(vec![9u8]), vec![9u8, 9u8]);
}

#[test]
fn band_speeds_grow_away_from_the_middle() {
    assert_eq!(band_speed(7), 0);
    assert_eq!(band_speed(6), 1);
    assert_eq!(band_speed(8), 1);
    assert_eq!(band_speed(0), 13);
    assert_eq!(band_speed(14), 13);
    assert_eq!(band_speed(4), 2);
}

#[test]
fn band_hues_split_the_wheel() {
    assert_eq!(band_hue(0), 120);
    assert_eq!(band_hue(1), 240);
    assert_eq!(band_hue(2), 360);
}

#[test]
fn atlas_indices() {
    assert_eq!(atlas_index(0, 0), 0);
    assert_eq!(atlas_index(0, 5), 5);
    assert_eq!(atlas_index(3, 4), 16);
    assert_eq!(atlas_index(15, 15), 240);
}
