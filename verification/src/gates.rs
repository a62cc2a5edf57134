use vstd::prelude::*;

verus! {

/// Where in the table a gate's identity is enforced. A selector is a
/// boolean flag per table position; a gate fires at every position whose
/// selector is on.
#[derive(Clone, Copy, Debug, PartialEq, Eq, Structural)]
pub enum SelectorScope {
    /// Armed by the selector that is on everywhere, so the identity repeats
    /// at each of the 9 positions.
    AllPositions,
    /// Armed by the selector that is on at position 0 alone, so the
    /// identity runs a single time per proof and internally sweeps whatever
    /// window of the table it needs.
    FirstPositionOnly,
}

/// Which identity a gate enforces. The evaluation module defines, for each
/// kind, the predicate that a committed table has to meet.
#[derive(Clone, Copy, Debug, PartialEq, Eq, Structural)]
pub enum GateKind {
    /// Demands (1 - v)(2 - v)...(9 - v) = 0 of each cell v, which forces
    /// every committed digit into {1..9}. Runs once globally.
    RangeCheck,
    /// Where it fires, demands that the 9 cells across the table columns
    /// have sum 45 and product 362880. It fires everywhere, so it covers
    /// every cross-section, that is every Sudoku column.
    CrossSection,
    /// Runs once globally and demands, of each of the 9 table columns, that
    /// its cells have sum 45 and product 362880. A table column carries one
    /// Sudoku row, so every Sudoku row is covered.
    RowIdentity,
    /// Runs once globally and demands sum 45 and product 362880 of each of
    /// the 9 disjoint 3x3 blocks.
    BoxIdentity,
}

/// One registered gate: an identity paired with the selector scope that
/// says where it fires.
#[derive(Clone, Copy, Debug, PartialEq, Eq, Structural)]
pub struct GateDescriptor {
    pub kind: GateKind,
    pub scope: SelectorScope,
}

/// The compiled configuration: the column declarations and the four gates,
/// each tagged with where it fires. Nothing in it depends on a witness, so
/// one configuration serves any number of assignments.
#[derive(Clone, Copy, Debug, PartialEq, Eq, Structural)]
pub struct SudokuConfig {
    pub range_check: GateDescriptor,
    pub cross_section: GateDescriptor,
    pub row_identity: GateDescriptor,
    pub box_identity: GateDescriptor,
    /// Advice columns: one per Sudoku row, holding the committed digits.
    pub n_advice_columns: usize,
    /// Instance columns: one per Sudoku row, holding the public clues.
    pub n_instance_columns: usize,
    /// Positions per column.
    pub n_positions: usize,
}

/// The one gate set this circuit ever compiles.
pub open spec fn spec_configure() -> SudokuConfig {
    SudokuConfig {
        range_check: GateDescriptor {
            kind: GateKind::RangeCheck,
            scope: SelectorScope::FirstPositionOnly,
        },
        cross_section: GateDescriptor {
            kind: GateKind::CrossSection,
            scope: SelectorScope::AllPositions,
        },
        row_identity: GateDescriptor {
            kind: GateKind::RowIdentity,
            scope: SelectorScope::FirstPositionOnly,
        },
        box_identity: GateDescriptor {
            kind: GateKind::BoxIdentity,
            scope: SelectorScope::FirstPositionOnly,
        },
        n_advice_columns: 9,
        n_instance_columns: 9,
        n_positions: 9,
    }
}

/// Compiling the configuration is deterministic and witness-independent:
/// any two results that meet the configuration contract are equal, field
/// for field, however often the compilation runs.
pub proof fn lemma_configure_deterministic(a: SudokuConfig, b: SudokuConfig)
    requires
        a == spec_configure(),
        b == spec_configure(),
    ensures
        a == b,
{
}

} // verus!
