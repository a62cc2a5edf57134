use vstd::prelude::*;

use crate::SudokuError;

verus! {

/// A 9x9 matrix of digits, stored row-major: `self@[r][c]` is the digit at
/// Sudoku row `r` and Sudoku column `c`.
///
/// Two grids take part in one proof instance. The public grid holds the
/// puzzle's clues and marks blanks with 0. The control grid is its
/// complement: a 0 wherever a clue stands, which tells assignment to pull
/// that digit from the public side, and the prover's solved digit wherever
/// the puzzle was blank.
///
/// Digits are modelled as small unsigned integers; a proving backend maps
/// them to field elements. All identities this crate states are over the
/// integers, which agrees with arithmetic in any field whose characteristic
/// exceeds the magnitudes involved, as every cryptographically sized field
/// does for digits 1..9.
#[derive(Debug)]
pub struct Grid {
    rows: Vec<Vec<u64>>,
}

impl View for Grid {
    type V = Seq<Seq<u64>>;

    closed spec fn view(&self) -> Seq<Seq<u64>> {
        self.rows.deep_view()
    }
}

/// A 9x9 shape: 9 rows of 9 cells each.
pub open spec fn is_square(m: Seq<Seq<u64>>) -> bool {
    &&& m.len() == 9
    &&& forall|r: int| 0 <= r < 9 ==> (#[trigger] m[r]).len() == 9
}

impl Grid {
    /// A grid is well formed when it is 9 rows of 9 cells.
    pub open spec fn wf(&self) -> bool {
        is_square(self@)
    }

    /// Builds a grid from row vectors, rejecting any shape that is not 9x9.
    pub fn from_rows(rows: Vec<Vec<u64>>) -> (result: Result<Grid, SudokuError>)
        ensures
            match result {
                Ok(g) => g.wf() && g@ == rows.deep_view() && is_square(rows.deep_view()),
                Err(e) => e == SudokuError::Shape && !is_square(rows.deep_view()),
            },
    {
        if rows.len() != 9 {
            return Err(SudokuError::Shape);
        }
        for r in 0..9
            invariant
                rows@.len() == 9,
                forall|i: int| 0 <= i < r ==> (#[trigger] rows.deep_view()[i]).len() == 9,
        {
            if rows[r].len() != 9 {
                assert(rows.deep_view()[r as int].len() != 9);
                return Err(SudokuError::Shape);
            }
            assert(rows.deep_view()[r as int].len() == 9);
        }
        Ok(Grid { rows })
    }

    /// Reads the digit at Sudoku row `r`, Sudoku column `c`.
    pub fn get(&self, r: usize, c: usize) -> (v: u64)
        requires
            self.wf(),
            r < 9,
            c < 9,
        ensures
            v == self@[r as int][c as int],
    {
        proof {
            assert(self.rows@.len() == self@.len());
            assert(self.rows@[r as int]@.len() == self@[r as int].len());
        }
        self.rows[r][c]
    }

    /// Overwrites the digit at Sudoku row `r`, Sudoku column `c`; the rest of
    /// the grid is unchanged.
    pub fn set(&mut self, r: usize, c: usize, v: u64)
        requires
            old(self).wf(),
            r < 9,
            c < 9,
        ensures
            final(self).wf(),
            final(self)@ == old(self)@.update(r as int, old(self)@[r as int].update(c as int, v)),
    {
        proof {
            assert(self.rows@.len() == self@.len());
            assert(self.rows@[r as int]@.len() == self@[r as int].len());
        }
        let row: &mut Vec<u64> = &mut self.rows[r];
        row.set(c, v);
        assert(self@ =~= old(self)@.update(r as int, old(self)@[r as int].update(c as int, v)))
        by {
            assert(self@[r as int] =~= old(self)@[r as int].update(c as int, v));
        }
    }
}

} // verus!
