use partydeck::grid::{Grid, GridPosition};
use partydeck::resolution::Resolution;

fn full_hd() -> Resolution {
    Resolution::new(1920, 1080)
}

#[test]
fn resolution_new_keeps_both_dimensions() {
    let res = Resolution::new(1280, 720);
    assert_eq!(res.width, 1280);
    assert_eq!(res.height, 720);
    assert_eq!(res, Resolution { width: 1280, height: 720 });
}

#[test]
fn aspect_aware_three_players_on_full_hd() {
    let grid = Grid::new(3, full_hd());
    assert_eq!(grid.cols, 3);
    assert_eq!(grid.rows, 1);
    assert_eq!(grid.res, full_hd());
}

#[test]
fn aspect_aware_shapes_on_full_hd() {
    let expected: [(u32, u32, u32); 8] = [
        (1, 1, 2),
        (2, 1, 2),
        (4, 2, 3),
        (5, 2, 3),
        (6, 2, 4),
        (9, 3, 4),
        (16, 3, 6),
        (64, 6, 11),
    ];
    for (players, rows, cols) in expected {
        let grid = Grid::new(players, full_hd());
        assert_eq!((grid.rows, grid.cols), (rows, cols), "players = {}", players);
    }
}

#[test]
fn aspect_aware_exact_square_root_is_not_rounded_up() {
    // 4 * 1000 / 1000 = 4, whose root is exactly 2.
    let grid = Grid::new(4, Resolution::new(1000, 1000));
    assert_eq!((grid.rows, grid.cols), (2, 2));
    // 1 * 4000 / 1000 = 4 as well.
    let wide = Grid::new(1, Resolution::new(4000, 1000));
    assert_eq!((wide.rows, wide.cols), (1, 2));
    // 3 * 1200 / 900 = 4.
    let third = Grid::new(3, Resolution::new(1200, 900));
    assert_eq!((third.rows, third.cols), (2, 2));
}

#[test]
fn aspect_aware_tall_screen_gets_more_rows() {
    let grid = Grid::new(4, Resolution::new(1080, 1920));
    // sqrt(4 * 0.5625) = 1.5
    assert_eq!((grid.rows, grid.cols), (2, 2));
    let narrow = Grid::new(4, Resolution::new(100, 1600));
    // sqrt(4 / 16) = 0.5
    assert_eq!((narrow.rows, narrow.cols), (4, 1));
}

#[test]
fn aspect_aware_largest_inputs() {
    let grid = Grid::new(u32::MAX, Resolution::new(u32::MAX, 1));
    assert_eq!(grid.cols, u32::MAX);
    assert_eq!(grid.rows, 1);
    let square = Grid::new(u32::MAX, Resolution::new(1, 1));
    assert_eq!(square.cols, 65536);
    assert_eq!(square.rows, 65536);
}

#[test]
fn square_first_shapes() {
    let expected: [(u32, u32, u32); 9] = [
        (1, 1, 1),
        (2, 2, 1),
        (3, 2, 2),
        (4, 2, 2),
        (5, 3, 2),
        (7, 3, 3),
        (10, 4, 3),
        (17, 5, 4),
        (64, 8, 8),
    ];
    for (players, rows, cols) in expected {
        let grid = Grid::new_square(players, full_hd());
        assert_eq!((grid.rows, grid.cols), (rows, cols), "players = {}", players);
        let other = Grid::new_square(players, Resolution::new(100, 3000));
        assert_eq!((other.rows, other.cols), (rows, cols), "players = {}", players);
    }
}

#[test]
fn both_policies_cover_all_players_without_a_spare_row() {
    let screens = [
        Resolution::new(1920, 1080),
        Resolution::new(1280, 800),
        Resolution::new(3440, 1440),
        Resolution::new(1080, 1920),
        Resolution::new(1, 1),
        Resolution::new(7, 5000),
        Resolution::new(5000, 7),
    ];
    for screen in screens {
        for players in 1u32..=64 {
            for grid in [Grid::new(players, screen), Grid::new_square(players, screen)] {
                let cells = grid.rows * grid.cols;
                assert!(cells >= players);
                assert!(cells - players < grid.cols);
                assert!(grid.rows >= 1 && grid.cols >= 1);
                assert_eq!(grid.cells_number(), cells);
            }
        }
    }
}

#[test]
fn cells_number_multiplies_rows_and_columns() {
    let grid = Grid { rows: 3, cols: 4, res: full_hd() };
    assert_eq!(grid.cells_number(), 12);
    let largest = Grid { rows: 65535, cols: 65537, res: full_hd() };
    assert_eq!(largest.cells_number(), u32::MAX);
}

#[test]
fn single_cell_divides_and_rounds_down() {
    let grid = Grid { rows: 1, cols: 3, res: full_hd() };
    assert_eq!(grid.single_cell_res(), Resolution::new(640, 1080));
    let uneven = Grid { rows: 7, cols: 11, res: full_hd() };
    assert_eq!(uneven.single_cell_res(), Resolution::new(174, 154));
    assert!(174 * 11 < 1920 && 154 * 7 < 1080);
}

#[test]
fn single_cell_is_within_the_screen_and_positive_when_cells_fit() {
    for players in 1u32..=64 {
        let grid = Grid::new(players, full_hd());
        let cell = grid.single_cell_res();
        assert!(cell.width <= 1920 && cell.height <= 1080);
        assert!(cell.width >= 1 && cell.height >= 1);
    }
}

#[test]
fn single_cell_has_no_width_when_columns_outnumber_pixels() {
    let grid = Grid::new(64, Resolution::new(4, 4));
    assert_eq!((grid.rows, grid.cols), (8, 8));
    assert_eq!(grid.single_cell_res(), Resolution::new(0, 0));
}

#[test]
fn grid_position_keys_tell_cells_apart() {
    let a = GridPosition { row: 0, col: 1 };
    let b = GridPosition { row: 1, col: 0 };
    assert_eq!(a.key(), 1);
    assert_eq!(b.key(), 4294967296);
    assert_ne!(a.key(), b.key());
    let last = GridPosition { row: u32::MAX, col: u32::MAX };
    assert_eq!(last.key(), u64::MAX);
}
