use vstd::prelude::*;

use crate::eval::{
    lemma_range_poly_zero_iff, lemma_seq_prod_push, lemma_seq_sum_push, range_poly, seq_prod,
    seq_sum, spec_box_cells, spec_box_gate_ok, spec_column_cells, spec_cross_section_gate_ok,
    spec_range_gate_ok, spec_row_gate_ok, spec_section_ok,
};
use crate::grid::is_square;

verus! {

use vstd::seq_lib::group_to_multiset_ensures;

/// The digits a Sudoku section must carry, once each.
pub open spec fn spec_digits() -> Seq<u64> {
    Seq::new(9, |i: int| (i + 1) as u64)
}

/// A section holds exactly the digits 1 through 9, in some order.
pub open spec fn spec_is_digit_permutation(s: Seq<u64>) -> bool {
    s.to_multiset() == spec_digits().to_multiset()
}

/// Removing a cell takes its value out of the sum.
proof fn lemma_seq_sum_remove(s: Seq<u64>, i: int)
    requires
        0 <= i < s.len(),
    ensures
        seq_sum(s) == seq_sum(s.remove(i)) + s[i],
    decreases i,
{
    if i == 0 {
        assert(s.remove(0) =~= s.drop_first());
    } else {
        assert(s.remove(i).drop_first() =~= s.drop_first().remove(i - 1));
        lemma_seq_sum_remove(s.drop_first(), i - 1);
        assert(s.remove(i)[0] == s[0]);
        assert(s.drop_first()[i - 1] == s[i]);
    }
}

/// Removing a cell divides its value out of the product.
proof fn lemma_seq_prod_remove(s: Seq<u64>, i: int)
    requires
        0 <= i < s.len(),
    ensures
        seq_prod(s) == seq_prod(s.remove(i)) * s[i],
    decreases i,
{
    if i == 0 {
        assert(s.remove(0) =~= s.drop_first());
        vstd::arithmetic::mul::lemma_mul_is_commutative(s[0] as int, seq_prod(s.drop_first()));
    } else {
        assert(s.remove(i).drop_first() =~= s.drop_first().remove(i - 1));
        lemma_seq_prod_remove(s.drop_first(), i - 1);
        assert(s.remove(i)[0] == s[0]);
        assert(s.drop_first()[i - 1] == s[i]);
        vstd::arithmetic::mul::lemma_mul_is_associative(
            s[0] as int,
            seq_prod(s.drop_first().remove(i - 1)),
            s[i] as int,
        );
    }
}

/// Sum and product are invariant under rearrangement: two sequences with the
/// same multiset of cells have the same sum and the same product.
pub proof fn lemma_multiset_eq_same_sum_prod(s: Seq<u64>, t: Seq<u64>)
    requires
        s.to_multiset() == t.to_multiset(),
    ensures
        seq_sum(s) == seq_sum(t),
        seq_prod(s) == seq_prod(t),
    decreases s.len(),
{
    broadcast use group_to_multiset_ensures;

    if s.len() == 0 {
        assert(s.to_multiset().len() == s.len());
        assert(t.to_multiset().len() == t.len());
        assert(t.len() == 0);
    } else {
        let v = s[0];
        assert(s.contains(v));
        assert(t.to_multiset().count(v) > 0);
        assert(t.contains(v));
        let i = choose|i: int| 0 <= i < t.len() && t[i] == v;
        assert(s.remove(0).to_multiset() == s.to_multiset().remove(v));
        assert(t.remove(i).to_multiset() == t.to_multiset().remove(v));
        lemma_multiset_eq_same_sum_prod(s.remove(0), t.remove(i));
        lemma_seq_sum_remove(s, 0);
        lemma_seq_sum_remove(t, i);
        lemma_seq_prod_remove(s, 0);
        lemma_seq_prod_remove(t, i);
    }
}

/// The digits 1 through 9 sum to 45 and multiply to 362880.
proof fn lemma_digits_sum_prod()
    ensures
        seq_sum(spec_digits()) == 45,
        seq_prod(spec_digits()) == 362880,
{
    let d0 = Seq::<u64>::empty();
    let d1 = d0.push(1);
    let d2 = d1.push(2);
    let d3 = d2.push(3);
    let d4 = d3.push(4);
    let d5 = d4.push(5);
    let d6 = d5.push(6);
    let d7 = d6.push(7);
    let d8 = d7.push(8);
    let d9 = d8.push(9);
    lemma_seq_sum_push(d0, 1);
    lemma_seq_sum_push(d1, 2);
    lemma_seq_sum_push(d2, 3);
    lemma_seq_sum_push(d3, 4);
    lemma_seq_sum_push(d4, 5);
    lemma_seq_sum_push(d5, 6);
    lemma_seq_sum_push(d6, 7);
    lemma_seq_sum_push(d7, 8);
    lemma_seq_sum_push(d8, 9);
    lemma_seq_prod_push(d0, 1);
    lemma_seq_prod_push(d1, 2);
    lemma_seq_prod_push(d2, 3);
    lemma_seq_prod_push(d3, 4);
    lemma_seq_prod_push(d4, 5);
    lemma_seq_prod_push(d5, 6);
    lemma_seq_prod_push(d6, 7);
    lemma_seq_prod_push(d7, 8);
    lemma_seq_prod_push(d8, 9);
    assert(spec_digits() =~= d9);
}

/// A section that is a permutation of the digits 1..9 has 9 cells, each a
/// valid digit, and satisfies the sum and product identities.
pub proof fn lemma_digit_permutation_section(s: Seq<u64>)
    requires
        spec_is_digit_permutation(s),
    ensures
        s.len() == 9,
        spec_section_ok(s),
        forall|i: int| 0 <= i < 9 ==> 1 <= #[trigger] s[i] <= 9,
{
    broadcast use group_to_multiset_ensures;

    lemma_multiset_eq_same_sum_prod(s, spec_digits());
    lemma_digits_sum_prod();
    assert(s.len() == s.to_multiset().len());
    assert(spec_digits().len() == spec_digits().to_multiset().len());
    assert forall|i: int| 0 <= i < 9 implies 1 <= #[trigger] s[i] <= 9 by {
        assert(s.contains(s[i]));
        assert(s.to_multiset().count(s[i]) > 0);
        assert(spec_digits().contains(s[i]));
        let j = choose|j: int| 0 <= j < 9 && spec_digits()[j] == s[i];
        assert(spec_digits()[j] == j + 1);
    }
}

/// A fully valid solution satisfies every gate: if each Sudoku row, each
/// Sudoku column and each 3x3 box of the committed table is a permutation
/// of the digits 1..9, then the range check and all three sum-product
/// identities hold of the table.
pub proof fn lemma_valid_solution_satisfies_gates(t: Seq<Seq<u64>>)
    requires
        is_square(t),
        forall|r: int| 0 <= r < 9 ==> spec_is_digit_permutation(#[trigger] t[r]),
        forall|p: int|
            0 <= p < 9 ==> spec_is_digit_permutation(#[trigger] spec_column_cells(t, p)),
        forall|b: int| 0 <= b < 9 ==> spec_is_digit_permutation(#[trigger] spec_box_cells(t, b)),
    ensures
        spec_range_gate_ok(t),
        spec_cross_section_gate_ok(t),
        spec_row_gate_ok(t),
        spec_box_gate_ok(t),
{
    assert forall|r: int| 0 <= r < 9 implies spec_section_ok(#[trigger] t[r]) by {
        lemma_digit_permutation_section(t[r]);
    }
    assert forall|p: int| 0 <= p < 9 implies spec_section_ok(
        #[trigger] spec_column_cells(t, p),
    ) by {
        lemma_digit_permutation_section(spec_column_cells(t, p));
    }
    assert forall|b: int| 0 <= b < 9 implies spec_section_ok(#[trigger] spec_box_cells(t, b)) by {
        lemma_digit_permutation_section(spec_box_cells(t, b));
    }
    assert forall|c: int, p: int| 0 <= c < 9 && 0 <= p < 9 implies range_poly(
        #[trigger] t[c][p] as int,
    ) == 0 by {
        lemma_digit_permutation_section(t[c]);
        lemma_range_poly_zero_iff(t[c][p] as int);
    }
}

/// A cell outside the digit range defeats the range gate: if any committed
/// cell is 0, or 10 or more, the range polynomial does not vanish there and
/// the range gate is unsatisfied.
pub proof fn lemma_out_of_range_cell_fails_range_gate(t: Seq<Seq<u64>>, c: int, p: int)
    requires
        is_square(t),
        0 <= c < 9,
        0 <= p < 9,
        !(1 <= t[c][p] <= 9),
    ensures
        !spec_range_gate_ok(t),
{
    lemma_range_poly_zero_iff(t[c][p] as int);
}

/// When some Sudoku row's sum or product is off, the row gate rejects: that
/// is the once-per-proof identity swept within each table column.
pub proof fn lemma_unbalanced_row_fails_row_gate(t: Seq<Seq<u64>>, r: int)
    requires
        is_square(t),
        0 <= r < 9,
        !spec_section_ok(t[r]),
    ensures
        !spec_row_gate_ok(t),
{
}

/// A column violation cannot slip past the always-armed gate: wherever a
/// Sudoku column's sum or product is off, that gate's firing at the
/// column's own position comes out nonzero.
pub proof fn lemma_unbalanced_column_fails_cross_section_gate(t: Seq<Seq<u64>>, p: int)
    requires
        is_square(t),
        0 <= p < 9,
        !spec_section_ok(spec_column_cells(t, p)),
    ensures
        !spec_cross_section_gate_ok(t),
{
}

/// A 3x3 box whose sum or product deviates defeats the box gate.
pub proof fn lemma_unbalanced_box_fails_box_gate(t: Seq<Seq<u64>>, b: int)
    requires
        is_square(t),
        0 <= b < 9,
        !spec_section_ok(spec_box_cells(t, b)),
    ensures
        !spec_box_gate_ok(t),
{
}

} // verus!
