use vstd::prelude::*;

use crate::gates::{spec_configure, GateDescriptor, GateKind, SelectorScope, SudokuConfig};
use crate::grid::Grid;
use crate::table::FilledTable;

verus! {

/// The digit the table commits at Sudoku row `r`, column `c`: where the
/// control grid `s` holds zero the cell is a clue and the committed digit
/// comes out of `p`; anywhere else the prover's own digit from `s` stands.
pub open spec fn spec_merged_cell(p: Seq<Seq<u64>>, s: Seq<Seq<u64>>, r: int, c: int) -> u64 {
    if s[r][c] == 0 {
        p[r][c]
    } else {
        s[r][c]
    }
}

/// The full committed table that `p` and `s` determine together.
pub open spec fn spec_merged(p: Seq<Seq<u64>>, s: Seq<Seq<u64>>) -> Seq<Seq<u64>> {
    Seq::new(9, |r: int| Seq::new(9, |c: int| spec_merged_cell(p, s, r, c)))
}

/// Which cells carry an equality link to the instance column: exactly
/// those the control grid marks with 0.
pub open spec fn spec_links(s: Seq<Seq<u64>>) -> Seq<Seq<bool>> {
    Seq::new(9, |r: int| Seq::new(9, |c: int| s[r][c] == 0u64))
}

/// The committed table does not depend on how the cells were split between
/// clues and prover-filled digits: whenever the public grid carries a
/// solution's digit wherever the control grid is zero, and the control grid
/// carries it everywhere else, the table commits exactly that solution,
/// whatever the split was.
pub proof fn lemma_consistent_split_commits_solution(
    p: Seq<Seq<u64>>,
    s: Seq<Seq<u64>>,
    solution: Seq<Seq<u64>>,
)
    requires
        crate::grid::is_square(solution),
        forall|r: int, c: int|
            0 <= r < 9 && 0 <= c < 9 ==> (if s[r][c] == 0 {
                p[r][c]
            } else {
                s[r][c]
            }) == #[trigger] solution[r][c],
    ensures
        spec_merged(p, s) == solution,
{
    assert forall|r: int| 0 <= r < 9 implies #[trigger] spec_merged(p, s)[r] == solution[r] by {
        assert(spec_merged(p, s)[r] =~= solution[r]);
    }
    assert(spec_merged(p, s) =~= solution);
}

/// The driver: compiles the constraint system once, and fills one witness
/// table for each proof instance.
pub struct SudokuChip {
    pub config: SudokuConfig,
}

impl SudokuChip {
    /// Wraps a compiled configuration into a chip.
    pub fn construct(config: SudokuConfig) -> (chip: SudokuChip)
        ensures
            chip.config == config,
    {
        SudokuChip { config }
    }

    /// The configuration phase: registers the columns, the two selectors
    /// and the four gates. It depends on nothing but the table shape, so it
    /// always compiles the one gate set `spec_configure()` describes.
    pub fn configure() -> (config: SudokuConfig)
        ensures
            config == spec_configure(),
    {
        SudokuConfig {
            range_check: GateDescriptor {
                kind: GateKind::RangeCheck,
                scope: SelectorScope::FirstPositionOnly,
            },
            cross_section: GateDescriptor {
                kind: GateKind::CrossSection,
                scope: SelectorScope::AllPositions,
            },
            row_identity: GateDescriptor {
                kind: GateKind::RowIdentity,
                scope: SelectorScope::FirstPositionOnly,
            },
            box_identity: GateDescriptor {
                kind: GateKind::BoxIdentity,
                scope: SelectorScope::FirstPositionOnly,
            },
            n_advice_columns: 9,
            n_instance_columns: 9,
            n_positions: 9,
        }
    }

    /// The assignment phase. Each of the 81 cells is settled exactly once:
    /// a zero in the control grid makes the cell a clue, committed as an
    /// equality link to the matching instance cell; any other cell commits
    /// the control grid's digit and carries no link. Before the cells are
    /// written, both selectors are switched on, one at position 0 alone and
    /// one everywhere, which arms the compiled gates over the whole region.
    pub fn assign(&self, public_grid: &Grid, control: &Grid) -> (table: FilledTable)
        requires
            public_grid.wf(),
            control.wf(),
        ensures
            table.wf(),
            table.selectors_live(),
            table.instance_view() == public_grid@,
            table.advice_view() == spec_merged(public_grid@, control@),
            table.linked_view() == spec_links(control@),
    {
        let mut advice: Vec<Vec<u64>> = Vec::new();
        let mut instance: Vec<Vec<u64>> = Vec::new();
        let mut linked: Vec<Vec<bool>> = Vec::new();
        let mut always_enabled: Vec<bool> = Vec::new();
        let mut only_first_enabled: Vec<bool> = Vec::new();
        for p in 0..9
            invariant
                always_enabled@.len() == p,
                only_first_enabled@.len() == p,
                forall|i: int| 0 <= i < p ==> #[trigger] always_enabled@[i],
                forall|i: int| 0 <= i < p ==> (#[trigger] only_first_enabled@[i] <==> i == 0),
        {
            always_enabled.push(true);
            only_first_enabled.push(p == 0);
        }
        for r in 0..9
            invariant
                public_grid.wf(),
                control.wf(),
                advice@.len() == r,
                instance@.len() == r,
                linked@.len() == r,
                forall|i: int|
                    0 <= i < r ==> (#[trigger] advice@[i])@ == spec_merged(
                        public_grid@,
                        control@,
                    )[i],
                forall|i: int| 0 <= i < r ==> (#[trigger] instance@[i])@ == public_grid@[i],
                forall|i: int| 0 <= i < r ==> (#[trigger] linked@[i])@ == spec_links(control@)[i],
        {
            let mut advice_row: Vec<u64> = Vec::new();
            let mut instance_row: Vec<u64> = Vec::new();
            let mut linked_row: Vec<bool> = Vec::new();
            for c in 0..9
                invariant
                    public_grid.wf(),
                    control.wf(),
                    r < 9,
                    advice_row@.len() == c,
                    instance_row@.len() == c,
                    linked_row@.len() == c,
                    forall|j: int|
                        0 <= j < c ==> advice_row@[j] == spec_merged_cell(
                            public_grid@,
                            control@,
                            r as int,
                            j,
                        ),
                    forall|j: int| 0 <= j < c ==> instance_row@[j] == public_grid@[r as int][j],
                    forall|j: int|
                        0 <= j < c ==> linked_row@[j] == (control@[r as int][j] == 0u64),
            {
                let s = control.get(r, c);
                let p = public_grid.get(r, c);
                advice_row.push(if s == 0 { p } else { s });
                instance_row.push(p);
                linked_row.push(s == 0);
            }
            proof {
                assert(advice_row@ =~= spec_merged(public_grid@, control@)[r as int]);
                assert(instance_row@ =~= public_grid@[r as int]);
                assert(linked_row@ =~= spec_links(control@)[r as int]);
            }
            advice.push(advice_row);
            instance.push(instance_row);
            linked.push(linked_row);
        }
        proof {
            let merged = spec_merged(public_grid@, control@);
            let links = spec_links(control@);
            assert forall|i: int| 0 <= i < 9 implies #[trigger] advice.deep_view()[i]
                == merged[i] by {
                assert(advice.deep_view()[i] =~= advice@[i]@);
            }
            assert forall|i: int| 0 <= i < 9 implies #[trigger] instance.deep_view()[i]
                == public_grid@[i] by {
                assert(instance.deep_view()[i] =~= instance@[i]@);
            }
            assert forall|i: int| 0 <= i < 9 implies #[trigger] linked.deep_view()[i]
                == links[i] by {
                assert(linked.deep_view()[i] =~= linked@[i]@);
            }
            assert(advice.deep_view() =~= merged);
            assert(instance.deep_view() =~= public_grid@);
            assert(linked.deep_view() =~= links);
        }
        FilledTable::from_parts(advice, instance, linked, always_enabled, only_first_enabled)
    }
}

} // verus!
