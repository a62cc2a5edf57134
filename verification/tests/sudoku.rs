use sudoku_circuit::backend::verify;
use sudoku_circuit::chip::SudokuChip;
use sudoku_circuit::eval::{evaluate, section_satisfied, GateReport};
use sudoku_circuit::grid::Grid;
use sudoku_circuit::layout::{sudoku_index, table_index};
use sudoku_circuit::table::FilledTable;
use sudoku_circuit::SudokuError;

fn grid(rows: [[u64; 9]; 9]) -> Grid {
    let rows: Vec<Vec<u64>> = rows.iter().map(|r| r.to_vec()).collect();
    Grid::from_rows(rows).unwrap()
}

fn example_public() -> Grid {
    grid([
        [0, 0, 1, 0, 0, 4, 0, 9, 0],
        [4, 0, 0, 0, 0, 0, 1, 0, 7],
        [0, 8, 0, 7, 0, 0, 0, 0, 4],
        [9, 0, 0, 0, 1, 0, 8, 0, 0],
        [0, 0, 0, 8, 0, 7, 0, 0, 0],
        [0, 0, 8, 0, 6, 0, 0, 0, 1],
        [8, 0, 0, 0, 0, 5, 0, 1, 0],
        [6, 0, 5, 0, 0, 0, 0, 0, 9],
        [0, 1, 0, 9, 0, 0, 4, 0, 0],
    ])
}

fn example_control() -> Grid {
    grid([
        [5, 7, 0, 6, 2, 0, 3, 0, 8],
        [0, 2, 6, 3, 8, 9, 0, 5, 0],
        [3, 0, 9, 0, 5, 1, 2, 6, 0],
        [0, 5, 7, 4, 0, 2, 0, 3, 6],
        [1, 6, 3, 0, 9, 0, 5, 4, 2],
        [2, 4, 0, 5, 0, 3, 9, 7, 0],
        [0, 9, 4, 2, 7, 0, 6, 0, 3],
        [0, 3, 0, 1, 4, 8, 7, 2, 0],
        [7, 0, 2, 0, 3, 6, 0, 8, 5],
    ])
}

fn full_solution() -> [[u64; 9]; 9] {
    [
        [5, 7, 1, 6, 2, 4, 3, 9, 8],
        [4, 2, 6, 3, 8, 9, 1, 5, 7],
        [3, 8, 9, 7, 5, 1, 2, 6, 4],
        [9, 5, 7, 4, 1, 2, 8, 3, 6],
        [1, 6, 3, 8, 9, 7, 5, 4, 2],
        [2, 4, 8, 5, 6, 3, 9, 7, 1],
        [8, 9, 4, 2, 7, 5, 6, 1, 3],
        [6, 3, 5, 1, 4, 8, 7, 2, 9],
        [7, 1, 2, 9, 3, 6, 4, 8, 5],
    ]
}

fn zero_grid() -> Grid {
    grid([[0; 9]; 9])
}

fn assign_and_evaluate(public: &Grid, control: &Grid) -> (FilledTable, GateReport) {
    let chip = SudokuChip::construct(SudokuChip::configure());
    let table = chip.assign(public, control);
    let report = evaluate(&table);
    (table, report)
}

#[test]
fn sudoku_example() {
    let mut public_input = example_public();
    let private_input = example_control();

    let chip = SudokuChip::construct(SudokuChip::configure());
    let table = chip.assign(&public_input, &private_input);

    let report = evaluate(&table);
    assert!(report.all_satisfied());
    assert!(verify(&table, &public_input));

    let mutated = public_input.get(0, 0) + 1;
    public_input.set(0, 0, mutated);
    assert!(!verify(&table, &public_input));
}

#[test]
fn valid_grid_satisfies_all_gates_any_partition() {
    // All cells supplied by the prover: the public grid is empty.
    let (_, report) = assign_and_evaluate(&zero_grid(), &grid(full_solution()));
    assert!(report.range_check_ok);
    assert!(report.cross_section_ok);
    assert!(report.row_identity_ok);
    assert!(report.box_identity_ok);

    // All cells supplied as clues: the control grid is all zeros.
    let (table, report) = assign_and_evaluate(&grid(full_solution()), &zero_grid());
    assert!(report.all_satisfied());
    assert!(verify(&table, &grid(full_solution())));
}

#[test]
fn range_gate_rejects_zero_cell() {
    let mut control = full_solution();
    control[4][4] = 0;
    // The zeroed control cell makes the table copy the (blank) public cell,
    // so the committed digit is 0.
    let (_, report) = assign_and_evaluate(&zero_grid(), &grid(control));
    assert!(!report.range_check_ok);
}

#[test]
fn range_gate_rejects_large_cell() {
    let mut control = full_solution();
    control[4][4] = 10;
    let (_, report) = assign_and_evaluate(&zero_grid(), &grid(control));
    assert!(!report.range_check_ok);

    let mut control = full_solution();
    control[0][8] = 200;
    let (_, report) = assign_and_evaluate(&zero_grid(), &grid(control));
    assert!(!report.range_check_ok);
}

#[test]
fn row_violation_fails_row_gate_only() {
    // Swapping two cells within one Sudoku column disturbs the two rows but
    // leaves every column and both boxes with the same digits, so only the
    // gate that governs the row axis may reject.
    let mut cells = full_solution();
    let tmp = cells[0][0];
    cells[0][0] = cells[1][0];
    cells[1][0] = tmp;
    let (_, report) = assign_and_evaluate(&zero_grid(), &grid(cells));
    assert!(report.range_check_ok);
    assert!(!report.row_identity_ok);
    assert!(report.cross_section_ok);
    assert!(report.box_identity_ok);
}

#[test]
fn column_violation_fails_cross_section_gate_only() {
    // Swapping two cells within one Sudoku row disturbs the two columns but
    // leaves every row and the shared box intact, so only the cross-section
    // gate, which governs the column axis, may reject.
    let mut cells = full_solution();
    let tmp = cells[0][0];
    cells[0][0] = cells[0][1];
    cells[0][1] = tmp;
    let (_, report) = assign_and_evaluate(&zero_grid(), &grid(cells));
    assert!(report.range_check_ok);
    assert!(report.row_identity_ok);
    assert!(!report.cross_section_ok);
    assert!(report.box_identity_ok);
}

#[test]
fn box_violation_fails_box_gate_only() {
    // A cyclic Latin square: every row and every column is a permutation of
    // 1..9, but each 3x3 box repeats digits, so exactly the box gate rejects.
    let mut cells = [[0u64; 9]; 9];
    for (r, row) in cells.iter_mut().enumerate() {
        for (c, cell) in row.iter_mut().enumerate() {
            *cell = ((r + c) % 9) as u64 + 1;
        }
    }
    let (_, report) = assign_and_evaluate(&zero_grid(), &grid(cells));
    assert!(report.range_check_ok);
    assert!(report.row_identity_ok);
    assert!(report.cross_section_ok);
    assert!(!report.box_identity_ok);
}

#[test]
fn configure_is_idempotent() {
    let first = SudokuChip::configure();
    let second = SudokuChip::configure();
    assert_eq!(first, second);
    assert_eq!(first.n_advice_columns, 9);
    assert_eq!(first.n_instance_columns, 9);
    assert_eq!(first.n_positions, 9);
}

#[test]
fn from_rows_rejects_bad_shapes() {
    let too_few: Vec<Vec<u64>> = vec![vec![1; 9]; 8];
    assert_eq!(Grid::from_rows(too_few).unwrap_err(), SudokuError::Shape);

    let mut short_row: Vec<Vec<u64>> = vec![vec![1; 9]; 9];
    short_row[3] = vec![1; 8];
    assert_eq!(Grid::from_rows(short_row).unwrap_err(), SudokuError::Shape);

    let mut long_row: Vec<Vec<u64>> = vec![vec![1; 9]; 9];
    long_row[8] = vec![1; 10];
    assert_eq!(Grid::from_rows(long_row).unwrap_err(), SudokuError::Shape);
}

#[test]
fn index_mapping_round_trips() {
    for r in 0..9 {
        for c in 0..9 {
            let (col, pos) = table_index(r, c);
            assert_eq!((col, pos), (r, c));
            assert_eq!(sudoku_index(col, pos), (r, c));
        }
    }
}

#[test]
fn section_identities_exact_values() {
    // A permutation of 1..9: sum 45, product 362880, both identities hold.
    assert!(section_satisfied(&vec![9, 8, 7, 6, 5, 4, 3, 2, 1]));
    // Sum is 45 but the product deviates.
    assert!(!section_satisfied(&vec![5, 5, 5, 5, 5, 5, 5, 1, 9]));
    // Product is exactly 362880 but the sum is 47.
    assert!(!section_satisfied(&vec![1, 1, 4, 5, 6, 6, 7, 8, 9]));
    // All digits valid, sum and product both deviate.
    assert!(!section_satisfied(&vec![1; 9]));
}

#[test]
fn product_evaluation_survives_huge_cells() {
    // Cells far outside the digit range drive the product accumulator past
    // what a machine word holds; the identities must still be judged false
    // rather than wrap around.
    let mut control = full_solution();
    for row in control.iter_mut() {
        for cell in row.iter_mut() {
            *cell = u64::MAX;
        }
    }
    let (_, report) = assign_and_evaluate(&zero_grid(), &grid(control));
    assert!(!report.range_check_ok);
    assert!(!report.cross_section_ok);
    assert!(!report.row_identity_ok);
    assert!(!report.box_identity_ok);
}

#[test]
fn assignment_links_exactly_clue_cells() {
    let public = example_public();
    let control = example_control();
    let chip = SudokuChip::construct(SudokuChip::configure());
    let table = chip.assign(&public, &control);

    let solution = full_solution();
    for r in 0..9 {
        for c in 0..9 {
            assert_eq!(table.is_linked(r, c), control.get(r, c) == 0);
            assert_eq!(table.instance_cell(r, c), public.get(r, c));
            assert_eq!(table.advice_cell(r, c), solution[r][c]);
        }
    }
    for p in 0..9 {
        assert!(table.always_enabled_at(p));
        assert_eq!(table.only_first_enabled_at(p), p == 0);
    }
}
