//! A verified constraint-system core for Sudoku over a PLONK-style table:
//! a prover commits a 9x9 solution and the compiled polynomial gates hold
//! exactly when it obeys the game's rules and matches the published clues.
//!
//! Everything the constraint system decides lives here under contracts
//! checked by Verus: how grid cells map onto the table (`layout`, `grid`),
//! what the gates are and where they fire (`gates`), how a witness table is
//! filled from a clue grid and a control grid (`chip`), what each gate
//! demands of the result (`eval`), and when a prover accepts (`backend`);
//! `laws` proves the headline facts, such as that a fully valid solution
//! leaves every gate satisfied. An outside proving stack supplies
//! polynomial commitments and field arithmetic and replays the compiled
//! gates and the committed table.

pub mod backend;
pub mod chip;
pub mod eval;
pub mod gates;
pub mod grid;
pub mod laws;
pub mod layout;
pub mod table;

use vstd::prelude::*;

verus! {

/// Errors this crate surfaces directly. A wrong Sudoku is no error here: it
/// shows up as one or more unsatisfied gates at evaluation time.
#[derive(Clone, Copy, Debug, PartialEq, Eq, Structural)]
pub enum SudokuError {
    /// A grid argument did not have 9 rows of 9 cells.
    Shape,
}

} // verus!
