use vstd::prelude::*;

verus! {

// The physical layout of the constraint table. Table column `c` carries
// Sudoku row `c`, and offset `p` within a column, called a position,
// carries Sudoku column `p`; so the digit of grid cell (r, c) sits in the
// table at (column r, position c).

/// The table column that holds Sudoku row `r`.
pub open spec fn spec_table_column_of(r: int) -> int {
    r
}

/// The table position that holds Sudoku column `c`.
pub open spec fn spec_table_position_of(c: int) -> int {
    c
}

/// The index of the 3x3 box that contains the cell at Sudoku row `r`,
/// Sudoku column `c`: boxes are numbered row-major, 0 through 8.
pub open spec fn spec_box_of(r: int, c: int) -> int {
    (r / 3) * 3 + c / 3
}

/// The table cell read by box `b` at sweep step `k`, as a
/// (table column, table position) pair. Steps 0..9 walk the box's
/// three-column, three-position block row-major.
pub open spec fn spec_box_cell(b: int, k: int) -> (int, int) {
    ((b / 3) * 3 + k / 3, (b % 3) * 3 + k % 3)
}

/// Maps a Sudoku cell to the table cell that carries it.
pub fn table_index(r: usize, c: usize) -> (t: (usize, usize))
    requires
        r < 9,
        c < 9,
    ensures
        t.0 == spec_table_column_of(r as int),
        t.1 == spec_table_position_of(c as int),
{
    (r, c)
}

/// Maps a table cell back to the Sudoku cell it carries.
pub fn sudoku_index(col: usize, pos: usize) -> (s: (usize, usize))
    requires
        col < 9,
        pos < 9,
    ensures
        spec_table_column_of(s.0 as int) == col,
        spec_table_position_of(s.1 as int) == pos,
{
    (col, pos)
}

/// The cell mapping is one-to-one and onto: it round-trips in both
/// directions, so distinct Sudoku cells land on distinct table cells and
/// every table cell carries exactly one Sudoku cell.
pub proof fn lemma_table_mapping_bijective()
    ensures
        forall|r: int, c: int|
            0 <= r < 9 && 0 <= c < 9 ==> #[trigger] spec_table_column_of(r) == r && #[trigger]
            spec_table_position_of(c) == c,
        forall|r1: int, c1: int, r2: int, c2: int|
            #![trigger spec_table_column_of(r1), spec_table_column_of(r2),
            spec_table_position_of(c1), spec_table_position_of(c2)]
            0 <= r1 < 9 && 0 <= c1 < 9 && 0 <= r2 < 9 && 0 <= c2 < 9 && spec_table_column_of(r1)
                == spec_table_column_of(r2) && spec_table_position_of(c1)
                == spec_table_position_of(c2) ==> r1 == r2 && c1 == c2,
{
}

/// The box sweep visits exactly the cells of the box: step `k` of box `b`
/// lands inside the table, in the three-column, three-position block that
/// box `b` owns, and the mapping from (box, step) to table cell is
/// injective.
pub proof fn lemma_box_sweep_covers_boxes()
    ensures
        forall|b: int, k: int|
            0 <= b < 9 && 0 <= k < 9 ==> {
                let (col, pos) = #[trigger] spec_box_cell(b, k);
                &&& 0 <= col < 9
                &&& 0 <= pos < 9
                &&& spec_box_of(col, pos) == b
            },
        forall|b1: int, k1: int, b2: int, k2: int|
            0 <= b1 < 9 && 0 <= k1 < 9 && 0 <= b2 < 9 && 0 <= k2 < 9 && #[trigger]
            spec_box_cell(b1, k1) == #[trigger] spec_box_cell(b2, k2) ==> b1 == b2 && k1 == k2,
{
    assert forall|b: int, k: int| 0 <= b < 9 && 0 <= k < 9 implies {
        let (col, pos) = #[trigger] spec_box_cell(b, k);
        &&& 0 <= col < 9
        &&& 0 <= pos < 9
        &&& spec_box_of(col, pos) == b
    } by {
        let (col, pos) = spec_box_cell(b, k);
        assert(col == (b / 3) * 3 + k / 3);
        assert(0 <= b / 3 < 3 && 0 <= k / 3 < 3 && 0 <= k % 3 < 3);
        assert(col / 3 == b / 3 && pos / 3 == b % 3) by (nonlinear_arith)
            requires
                0 <= b < 9 && 0 <= k < 9 && col == (b / 3) * 3 + k / 3 && pos == (b % 3) * 3 + k
                    % 3,
        ;
    }
    assert forall|b1: int, k1: int, b2: int, k2: int|
        0 <= b1 < 9 && 0 <= k1 < 9 && 0 <= b2 < 9 && 0 <= k2 < 9 && #[trigger]
        spec_box_cell(b1, k1) == #[trigger] spec_box_cell(b2, k2) implies b1 == b2 && k1
        == k2 by {
        assert(b1 == (b1 / 3) * 3 + b1 % 3 && k1 == (k1 / 3) * 3 + k1 % 3);
        assert(b2 == (b2 / 3) * 3 + b2 % 3 && k2 == (k2 / 3) * 3 + k2 % 3);
        assert(b1 / 3 == b2 / 3 && b1 % 3 == b2 % 3 && k1 / 3 == k2 / 3 && k1 % 3 == k2
            % 3) by (nonlinear_arith)
            requires
                0 <= b1 < 9 && 0 <= k1 < 9 && 0 <= b2 < 9 && 0 <= k2 < 9 && spec_box_cell(b1, k1)
                    == spec_box_cell(b2, k2),
        ;
    }
}

} // verus!
