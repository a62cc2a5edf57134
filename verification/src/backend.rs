use vstd::prelude::*;

use crate::chip::{spec_links, spec_merged};
use crate::eval::{
    evaluate, spec_box_cells, spec_box_gate_ok, spec_column_cells, spec_cross_section_gate_ok,
    spec_range_gate_ok, spec_row_gate_ok,
};
use crate::grid::Grid;
use crate::laws::{lemma_valid_solution_satisfies_gates, spec_is_digit_permutation};
use crate::table::FilledTable;

verus! {

/// What the proving backend enforces when it checks a proof for a filled
/// table against claimed public inputs: the table was built against exactly
/// those inputs, every linked advice cell equals its instance cell, the
/// selectors carry the pattern assignment establishes, and every gate value
/// is zero where its selector fires.
pub open spec fn spec_accepts(table: &FilledTable, public: Seq<Seq<u64>>) -> bool {
    &&& table.instance_view() == public
    &&& table.selectors_live()
    &&& forall|r: int, c: int|
        0 <= r < 9 && 0 <= c < 9 && #[trigger] table.linked_view()[r][c]
            ==> table.advice_view()[r][c] == table.instance_view()[r][c]
    &&& spec_range_gate_ok(table.advice_view())
    &&& spec_cross_section_gate_ok(table.advice_view())
    &&& spec_row_gate_ok(table.advice_view())
    &&& spec_box_gate_ok(table.advice_view())
}

/// End to end: a table that assignment built from a public grid and a
/// control grid whose committed digits form a valid solution, with every
/// Sudoku row, column and box a permutation of 1..9, is accepted against
/// that same public grid.
pub proof fn lemma_valid_assignment_accepted(
    table: &FilledTable,
    public: Seq<Seq<u64>>,
    control: Seq<Seq<u64>>,
)
    requires
        table.wf(),
        table.selectors_live(),
        table.instance_view() == public,
        table.advice_view() == spec_merged(public, control),
        table.linked_view() == spec_links(control),
        forall|r: int|
            0 <= r < 9 ==> spec_is_digit_permutation(#[trigger] table.advice_view()[r]),
        forall|p: int|
            0 <= p < 9 ==> spec_is_digit_permutation(
                #[trigger] spec_column_cells(table.advice_view(), p),
            ),
        forall|b: int|
            0 <= b < 9 ==> spec_is_digit_permutation(
                #[trigger] spec_box_cells(table.advice_view(), b),
            ),
    ensures
        spec_accepts(table, public),
{
    assert forall|r: int, c: int|
        0 <= r < 9 && 0 <= c < 9 && #[trigger] table.linked_view()[r][c] implies table.advice_view()[r][c]
        == table.instance_view()[r][c] by {
        assert(control[r][c] == 0);
    }
    lemma_valid_solution_satisfies_gates(table.advice_view());
}

/// Changing any one public input cell after assignment turns acceptance
/// into rejection: the table binds to the exact public inputs it was built
/// against.
pub proof fn lemma_changed_public_input_rejected(
    table: &FilledTable,
    assigned: Seq<Seq<u64>>,
    changed: Seq<Seq<u64>>,
    r: int,
    c: int,
)
    requires
        table.instance_view() == assigned,
        0 <= r < 9,
        0 <= c < 9,
        assigned[r][c] != changed[r][c],
    ensures
        !spec_accepts(table, changed),
{
}

/// Decides as the outside prover would: it accepts exactly when a real
/// prover could prove and verify the instance, that is when the claimed
/// public inputs bind to the table and every constraint holds. Changing any
/// public cell after assignment makes it reject.
pub fn verify(table: &FilledTable, public_input: &Grid) -> (accepted: bool)
    requires
        table.wf(),
        public_input.wf(),
    ensures
        accepted == spec_accepts(table, public_input@),
{
    let mut bound = true;
    for r in 0..9
        invariant
            table.wf(),
            public_input.wf(),
            bound == (forall|i: int, j: int|
                0 <= i < r && 0 <= j < 9 ==> #[trigger] table.instance_view()[i][j]
                    == public_input@[i][j]),
    {
        for c in 0..9
            invariant
                table.wf(),
                public_input.wf(),
                r < 9,
                bound == (forall|i: int, j: int|
                    (0 <= i < r && 0 <= j < 9) || (i == r && 0 <= j < c) ==> #[trigger]
                    table.instance_view()[i][j] == public_input@[i][j]),
        {
            let same = table.instance_cell(r, c) == public_input.get(r, c);
            bound = bound && same;
        }
    }
    proof {
        if bound {
            assert forall|i: int| 0 <= i < 9 implies #[trigger] table.instance_view()[i]
                == public_input@[i] by {
                assert(table.instance_view()[i] =~= public_input@[i]);
            }
            assert(table.instance_view() =~= public_input@);
        }
    }
    let mut selectors = true;
    for p in 0..9
        invariant
            table.wf(),
            selectors == ((forall|q: int| 0 <= q < p ==> #[trigger] table.always_enabled_view()[q])
                && (forall|q: int|
                0 <= q < p ==> (#[trigger] table.only_first_enabled_view()[q] <==> q == 0))),
    {
        let live = table.always_enabled_at(p) && (table.only_first_enabled_at(p) == (p == 0));
        selectors = selectors && live;
    }
    let mut links = true;
    for r in 0..9
        invariant
            table.wf(),
            links == (forall|i: int, j: int|
                0 <= i < r && 0 <= j < 9 && #[trigger] table.linked_view()[i][j]
                    ==> table.advice_view()[i][j] == table.instance_view()[i][j]),
    {
        for c in 0..9
            invariant
                table.wf(),
                r < 9,
                links == (forall|i: int, j: int|
                    ((0 <= i < r && 0 <= j < 9) || (i == r && 0 <= j < c)) && #[trigger]
                    table.linked_view()[i][j] ==> table.advice_view()[i][j]
                        == table.instance_view()[i][j]),
        {
            let honoured = !table.is_linked(r, c) || table.advice_cell(r, c)
                == table.instance_cell(r, c);
            links = links && honoured;
        }
    }
    if !(bound && selectors && links) {
        return false;
    }
    let report = evaluate(table);
    report.all_satisfied()
}

} // verus!
