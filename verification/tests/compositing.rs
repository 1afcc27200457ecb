use bouncy::{Engine, Scalar, XYPair};

fn at(x_micro: i64, y_micro: i64) -> XYPair {
    XYPair { x: Scalar::from_micro(x_micro), y: Scalar::from_micro(y_micro) }
}

#[test]
fn raster_is_painted_where_the_body_stands() {
    let mut buffer = vec![9u32; 12];
    let raster = vec![vec![1, 2], vec![3, 4]];
    Engine::draw_at(&mut buffer, 4, 3, raster, &at(1_000_000, 1_000_000));
    assert_eq!(buffer, vec![9, 9, 9, 9, 9, 1, 2, 9, 9, 3, 4, 9]);
}

#[test]
fn position_is_rounded_down_to_a_cell() {
    let mut buffer = vec![0u32; 12];
    Engine::draw_at(&mut buffer, 4, 3, vec![vec![7]], &at(2_999_999, 1_000_001));
    assert_eq!(buffer, vec![0, 0, 0, 0, 0, 0, 7, 0, 0, 0, 0, 0]);
}

#[test]
fn transparent_cells_leave_the_buffer_alone() {
    let mut buffer = vec![9u32; 6];
    Engine::draw_at(&mut buffer, 3, 2, vec![vec![0, 5, 0], vec![6, 0, 0]], &at(0, 0));
    assert_eq!(buffer, vec![9, 5, 9, 6, 9, 9]);
}

#[test]
fn raster_outside_the_buffer_is_dropped() {
    let before = vec![3u32; 12];
    for (x, y) in [(4, 0), (0, 3), (100, 100), (-2, 0), (0, -2), (-100, -100), (4, -2)] {
        let mut buffer = before.clone();
        let raster = vec![vec![1, 2], vec![3, 4]];
        Engine::draw_at(&mut buffer, 4, 3, raster, &at(x * 1_000_000, y * 1_000_000));
        assert_eq!(buffer, before);
    }
}

#[test]
fn raster_far_outside_the_buffer_is_dropped() {
    let before = vec![3u32; 12];
    for (x, y) in [(i64::MAX, 0), (0, i64::MAX), (i64::MIN, 0), (0, i64::MIN), (i64::MIN, i64::MAX)] {
        let mut buffer = before.clone();
        Engine::draw_at(&mut buffer, 4, 3, vec![vec![1, 2], vec![3, 4]], &at(x, y));
        assert_eq!(buffer, before);
    }
}

#[test]
fn raster_across_an_edge_is_cut() {
    let mut buffer = vec![0u32; 12];
    let raster = vec![vec![1, 2, 3], vec![4, 5, 6], vec![7, 8, 9]];
    Engine::draw_at(&mut buffer, 4, 3, raster, &at(-1_500_000, -500_000));
    // columns -2..=0 and rows -1..=1: only the last column and the last two rows land
    assert_eq!(buffer, vec![6, 0, 0, 0, 9, 0, 0, 0, 0, 0, 0, 0]);

    let mut buffer = vec![0u32; 12];
    let raster = vec![vec![1, 2, 3], vec![4, 5, 6], vec![7, 8, 9]];
    Engine::draw_at(&mut buffer, 4, 3, raster, &at(3_000_000, 2_000_000));
    assert_eq!(buffer, vec![0, 0, 0, 0, 0, 0, 0, 0, 0, 0, 0, 1]);
}

#[test]
fn a_cell_left_of_the_buffer_does_not_wrap_into_the_row_above() {
    let mut buffer = vec![0u32; 12];
    Engine::draw_at(&mut buffer, 4, 3, vec![vec![1, 2]], &at(-1_000_000, 1_000_000));
    assert_eq!(buffer, vec![0, 0, 0, 0, 2, 0, 0, 0, 0, 0, 0, 0]);

    let mut buffer = vec![0u32; 12];
    Engine::draw_at(&mut buffer, 4, 3, vec![vec![1, 2]], &at(3_000_000, 1_000_000));
    assert_eq!(buffer, vec![0, 0, 0, 0, 0, 0, 0, 1, 0, 0, 0, 0]);
}

#[test]
fn rows_of_different_lengths_are_painted_cell_by_cell() {
    let mut buffer = vec![0u32; 9];
    Engine::draw_at(&mut buffer, 3, 3, vec![vec![1], vec![], vec![2, 3, 4]], &at(0, 0));
    assert_eq!(buffer, vec![1, 0, 0, 0, 0, 0, 2, 3, 4]);
}

#[test]
fn empty_raster_and_empty_buffer_are_fine() {
    let mut buffer = vec![5u32; 4];
    Engine::draw_at(&mut buffer, 2, 2, vec![], &at(0, 0));
    assert_eq!(buffer, vec![5, 5, 5, 5]);

    let mut nothing: Vec<u32> = vec![];
    Engine::draw_at(&mut nothing, 0, 0, vec![vec![1]], &at(0, 0));
    assert!(nothing.is_empty());
    Engine::draw_at(&mut nothing, 0, 7, vec![vec![1]], &at(0, 0));
    assert!(nothing.is_empty());
    Engine::draw_at(&mut nothing, 7, 0, vec![vec![1]], &at(0, 0));
    assert!(nothing.is_empty());
}
