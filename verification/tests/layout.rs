use table_demo::fraction::Fraction;
use table_demo::grid::{Grid, Viewport};
use table_demo::indices::{cell_indices, through};
use table_demo::layout::{cell_centre, cell_extent};
use table_demo::table::Table;

fn as_float(f: Fraction) -> f64 {
    f.num as f64 / f.den as f64
}

fn close(a: f64, b: f64) -> bool {
    (a - b).abs() < 1e-9
}

fn default_grid() -> Grid {
    let table = Table::new(60, 100).unwrap();
    Grid::new(table, Viewport { width: 768, height: 512 }, 2)
}

#[test]
fn table_needs_a_division_each_way() {
    assert_eq!(Table::new(60, 100), Some(Table { num_cols: 60, num_rows: 100 }));
    assert_eq!(Table::new(1, 1), Some(Table { num_cols: 1, num_rows: 1 }));
    assert_eq!(Table::new(0, 100), None);
    assert_eq!(Table::new(60, 0), None);
    assert_eq!(Table::new(0, 0), None);
}

#[test]
fn cell_count_includes_both_ends() {
    assert_eq!(Table { num_cols: 60, num_rows: 100 }.cell_count(), 61 * 101);
    assert_eq!(Table { num_cols: 1, num_rows: 1 }.cell_count(), 4);
    assert_eq!(
        Table { num_cols: u32::MAX, num_rows: u32::MAX }.cell_count(),
        1u128 << 64
    );
}

#[test]
fn through_counts_from_zero_to_last() {
    assert_eq!(through(0), vec![0]);
    assert_eq!(through(3), vec![0, 1, 2, 3]);
    assert_eq!(through(60).len(), 61);
}

#[test]
fn indices_run_column_by_column() {
    let table = Table::new(2, 1).unwrap();
    assert_eq!(
        cell_indices(&table),
        vec![(0, 0), (0, 1), (1, 0), (1, 1), (2, 0), (2, 1)]
    );
}

#[test]
fn indices_of_an_oblong_table() {
    let table = Table::new(1, 3).unwrap();
    assert_eq!(
        cell_indices(&table),
        vec![(0, 0), (0, 1), (0, 2), (0, 3), (1, 0), (1, 1), (1, 2), (1, 3)]
    );
}

#[test]
fn indices_of_the_default_table() {
    let table = Table::new(60, 100).unwrap();
    let indices = cell_indices(&table);
    assert_eq!(indices.len(), 6161);
    assert_eq!(indices[0], (0, 0));
    assert_eq!(indices[100], (0, 100));
    assert_eq!(indices[101], (1, 0));
    assert_eq!(indices[6160], (60, 100));
    for (i, index) in indices.iter().enumerate() {
        assert_eq!(*index, ((i / 101) as u32, (i % 101) as u32));
    }
}

#[test]
fn extent_is_the_share_less_both_paddings() {
    assert_eq!(cell_extent(768, 60, 2), Fraction { num: 528, den: 60 });
    assert_eq!(cell_extent(512, 100, 2), Fraction { num: 112, den: 100 });
    assert!(close(as_float(cell_extent(768, 60, 2)), 8.8));
    assert!(close(as_float(cell_extent(512, 100, 2)), 1.12));
}

#[test]
fn extent_may_be_negative() {
    assert_eq!(cell_extent(10, 5, 2), Fraction { num: -10, den: 5 });
    assert!(close(as_float(cell_extent(10, 5, 2)), -2.0));
    assert_eq!(cell_extent(0, 1, 0), Fraction { num: 0, den: 1 });
}

#[test]
fn extent_at_the_limits() {
    let f = cell_extent(u32::MAX, u32::MAX, u32::MAX);
    let m = u32::MAX as i128;
    assert_eq!(f, Fraction { num: m - 2 * m * m, den: u32::MAX as u64 });
}

#[test]
fn centre_of_the_first_cell() {
    let x = cell_centre(768, 60, 2, 0);
    let y = cell_centre(512, 100, 2, 0);
    assert_eq!(x, Fraction { num: -46080, den: 180 });
    assert_eq!(y, Fraction { num: -51200, den: 300 });
    assert!(close(as_float(x), -256.0));
    assert!(close(as_float(y), -512.0 / 3.0));
    assert!((as_float(y) - -170.67).abs() < 0.01);
}

#[test]
fn centre_of_the_last_cell() {
    let x = cell_centre(768, 60, 2, 60);
    let y = cell_centre(512, 100, 2, 100);
    assert_eq!(x, Fraction { num: 70560, den: 180 });
    assert_eq!(y, Fraction { num: 42400, den: 300 });
    assert!(close(as_float(x), 60.0 * (8.8 + 2.0) - 256.0));
    assert!(close(as_float(y), 100.0 * (1.12 + 2.0) - 512.0 / 3.0));
    assert!((as_float(y) - (100.0 * (1.12 + 2.0) - 170.67)).abs() < 0.01);
}

#[test]
fn centre_at_the_limits() {
    let m = u32::MAX as i128;
    let f = cell_centre(u32::MAX, u32::MAX, u32::MAX, u32::MAX);
    assert_eq!(f, Fraction { num: 3 * m * (m - m * m) - m * m, den: 3 * u32::MAX as u64 });
    let g = cell_centre(u32::MAX, 1, 0, u32::MAX);
    assert_eq!(g, Fraction { num: 3 * m * m - m, den: 3 });
}

#[test]
fn default_grid_has_every_cell() {
    let grid = default_grid();
    assert_eq!(grid.len(), (60 + 1) * (100 + 1));
    assert_eq!(grid.table(), Table { num_cols: 60, num_rows: 100 });
    assert_eq!(grid.viewport(), Viewport { width: 768, height: 512 });
    assert_eq!(grid.padding(), 2);
}

#[test]
fn small_grids_have_every_cell() {
    for cols in 1..6u32 {
        for rows in 1..6u32 {
            let grid = Grid::new(
                Table::new(cols, rows).unwrap(),
                Viewport { width: 100, height: 50 },
                1,
            );
            assert_eq!(grid.len() as u32, (cols + 1) * (rows + 1));
        }
    }
}

#[test]
fn default_grid_first_cell() {
    let grid = default_grid();
    let cell = grid.cell(0);
    assert_eq!((cell.col, cell.row), (0, 0));
    assert!(close(as_float(cell.width), 8.8));
    assert!(close(as_float(cell.height), 1.12));
    assert!(close(as_float(cell.x), -256.0));
    assert!((as_float(cell.y) - -170.67).abs() < 0.01);
    assert!(!cell.on);
}

#[test]
fn default_grid_last_cell() {
    let grid = default_grid();
    let cell = grid.cell(grid.len() - 1);
    assert_eq!((cell.col, cell.row), (60, 100));
    assert!(close(as_float(cell.x), 392.0));
    assert!(close(as_float(cell.y), 312.0 - 512.0 / 3.0));
}

#[test]
fn cells_follow_the_formulas() {
    let grid = default_grid();
    for i in 0..grid.len() {
        let cell = grid.cell(i);
        assert_eq!(cell.col as usize, i / 101);
        assert_eq!(cell.row as usize, i % 101);
        let x = cell.col as f64 * (768.0 / 60.0 - 4.0 + 2.0) - 768.0 / 3.0;
        let y = cell.row as f64 * (512.0 / 100.0 - 4.0 + 2.0) - 512.0 / 3.0;
        assert!(close(as_float(cell.x), x));
        assert!(close(as_float(cell.y), y));
    }
}

#[test]
fn cells_share_one_size() {
    let grid = default_grid();
    let first = grid.cell(0);
    for i in 0..grid.len() {
        let cell = grid.cell(i);
        assert_eq!(cell.width, first.width);
        assert_eq!(cell.height, first.height);
    }
}

#[test]
fn layout_is_repeatable() {
    let a = default_grid();
    let b = default_grid();
    assert_eq!(a.len(), b.len());
    for i in 0..a.len() {
        assert_eq!(a.cell(i), b.cell(i));
    }
}

#[test]
fn fresh_cells_are_off() {
    let grid = default_grid();
    for i in 0..grid.len() {
        assert!(!grid.cell(i).on);
    }
}
