use vstd::prelude::*;

use crate::layout::spec_box_cell;
use crate::table::FilledTable;

verus! {

use vstd::arithmetic::overflow::CheckedU128;

// What each polynomial identity asks of a committed table. The identities
// are written over the integers; in any field whose characteristic exceeds
// the magnitudes involved, as every cryptographically sized field does,
// integer and field evaluation agree for them.

/// What 9 digits that are a rearrangement of 1..9 add up to.
pub const SECTION_SUM: u64 = 45;

/// What 9 digits that are a rearrangement of 1..9 multiply out to.
pub const SECTION_PRODUCT: u64 = 362880;

/// The sum of a sequence of cells.
pub open spec fn seq_sum(s: Seq<u64>) -> int
    decreases s.len(),
{
    if s.len() == 0 {
        0
    } else {
        s[0] + seq_sum(s.drop_first())
    }
}

/// The product of a sequence of cells.
pub open spec fn seq_prod(s: Seq<u64>) -> int
    decreases s.len(),
{
    if s.len() == 0 {
        1
    } else {
        s[0] * seq_prod(s.drop_first())
    }
}

/// The partial range polynomial (1 - v) * (2 - v) * ... * (k - v).
pub open spec fn range_poly_partial(v: int, k: nat) -> int
    decreases k,
{
    if k == 0 {
        1
    } else {
        range_poly_partial(v, (k - 1) as nat) * (k - v)
    }
}

/// The range-check polynomial (1 - v) * (2 - v) * ... * (9 - v): zero
/// exactly at the valid digits.
pub open spec fn range_poly(v: int) -> int {
    range_poly_partial(v, 9)
}

proof fn lemma_range_poly_partial_zero_iff(v: int, k: nat)
    ensures
        range_poly_partial(v, k) == 0 <==> 1 <= v <= k,
    decreases k,
{
    if k > 0 {
        lemma_range_poly_partial_zero_iff(v, (k - 1) as nat);
        let a = range_poly_partial(v, (k - 1) as nat);
        let b = k - v;
        assert(a * b == 0 <==> a == 0 || b == 0) by (nonlinear_arith);
    }
}

/// The range polynomial vanishes at a value exactly when the value is a
/// valid digit.
pub proof fn lemma_range_poly_zero_iff(v: int)
    ensures
        range_poly(v) == 0 <==> 1 <= v <= 9,
{
    lemma_range_poly_partial_zero_iff(v, 9);
}

/// Whether a cell passes the range check.
pub fn digit_in_range(v: u64) -> (ok: bool)
    ensures
        ok == (range_poly(v as int) == 0),
{
    proof {
        lemma_range_poly_zero_iff(v as int);
    }
    1 <= v && v <= 9
}

/// Appending a cell adds it to the sum.
pub proof fn lemma_seq_sum_push(s: Seq<u64>, x: u64)
    ensures
        seq_sum(s.push(x)) == seq_sum(s) + x,
    decreases s.len(),
{
    if s.len() == 0 {
        assert(s.push(x)[0] == x);
        assert(s.push(x).drop_first() =~= Seq::<u64>::empty());
        assert(seq_sum(s.push(x)) == x + seq_sum(s.push(x).drop_first()));
        assert(seq_sum(s.push(x).drop_first()) == 0);
        assert(seq_sum(s) == 0);
    } else {
        assert(s.push(x)[0] == s[0]);
        assert(s.push(x).drop_first() =~= s.drop_first().push(x));
        lemma_seq_sum_push(s.drop_first(), x);
    }
}

/// Appending a cell multiplies it into the product.
pub proof fn lemma_seq_prod_push(s: Seq<u64>, x: u64)
    ensures
        seq_prod(s.push(x)) == seq_prod(s) * x,
    decreases s.len(),
{
    if s.len() == 0 {
        assert(s.push(x)[0] == x);
        assert(s.push(x).drop_first() =~= Seq::<u64>::empty());
        assert(seq_prod(s.push(x)) == x * seq_prod(s.push(x).drop_first()));
        assert(seq_prod(s.push(x).drop_first()) == 1);
        assert(seq_prod(s) == 1);
        assert(x as int * 1 == 1 * (x as int)) by (nonlinear_arith);
    } else {
        assert(s.push(x)[0] == s[0]);
        assert(s.push(x).drop_first() =~= s.drop_first().push(x));
        lemma_seq_prod_push(s.drop_first(), x);
        vstd::arithmetic::mul::lemma_mul_is_associative(
            s[0] as int,
            seq_prod(s.drop_first()),
            x as int,
        );
    }
}

/// The sum and product identities both hold of one cross-section, row or
/// box worth of cells.
pub open spec fn spec_section_ok(s: Seq<u64>) -> bool {
    &&& seq_sum(s) == SECTION_SUM
    &&& seq_prod(s) == SECTION_PRODUCT
}

/// The cells that the cross-section identity reads when it fires at
/// position `p`: one cell from each table column, which is Sudoku column
/// `p`.
pub open spec fn spec_column_cells(t: Seq<Seq<u64>>, p: int) -> Seq<u64> {
    Seq::new(9, |c: int| t[c][p])
}

/// The cells that the box identity reads for box `b`, in sweep order.
pub open spec fn spec_box_cells(t: Seq<Seq<u64>>, b: int) -> Seq<u64> {
    Seq::new(
        9,
        |k: int|
            {
                let (col, pos) = spec_box_cell(b, k);
                t[col][pos]
            },
    )
}

/// Evaluates the sum and product identities on one section of 9 cells. The
/// product is tracked with an overflow-aware accumulator, so cells far
/// outside the digit range are still judged against the true mathematical
/// product.
pub fn section_satisfied(cells: &Vec<u64>) -> (ok: bool)
    requires
        cells@.len() == 9,
    ensures
        ok == spec_section_ok(cells@),
{
    let mut sum = CheckedU128::new(0);
    let mut prod = CheckedU128::new(1);
    for i in 0..9
        invariant
            cells@.len() == 9,
            sum@ == seq_sum(cells@.take(i as int)),
            prod@ == seq_prod(cells@.take(i as int)),
    {
        let v = cells[i];
        proof {
            assert(cells@.take(i + 1) =~= cells@.take(i as int).push(cells@[i as int]));
            lemma_seq_sum_push(cells@.take(i as int), v);
            lemma_seq_prod_push(cells@.take(i as int), v);
        }
        sum = sum.add_value(v as u128);
        prod = prod.mul_value(v as u128);
    }
    proof {
        assert(cells@.take(9) =~= cells@);
    }
    let sum_ok = match sum.to_option() {
        Some(v) => v == SECTION_SUM as u128,
        None => false,
    };
    let prod_ok = match prod.to_option() {
        Some(v) => v == SECTION_PRODUCT as u128,
        None => false,
    };
    sum_ok && prod_ok
}

/// The range-check gate is satisfied: every cell of the table is a valid
/// digit, that is the range polynomial vanishes at every cell.
pub open spec fn spec_range_gate_ok(t: Seq<Seq<u64>>) -> bool {
    forall|c: int, p: int| 0 <= c < 9 && 0 <= p < 9 ==> range_poly(#[trigger] t[c][p] as int) == 0
}

/// The cross-section gate is satisfied: fired at every position, it demands
/// the sum and product identities of every Sudoku column.
pub open spec fn spec_cross_section_gate_ok(t: Seq<Seq<u64>>) -> bool {
    forall|p: int| 0 <= p < 9 ==> spec_section_ok(#[trigger] spec_column_cells(t, p))
}

/// The row gate is satisfied: fired once, it sweeps all 9 table columns and
/// demands the sum and product identities of every Sudoku row.
pub open spec fn spec_row_gate_ok(t: Seq<Seq<u64>>) -> bool {
    forall|c: int| 0 <= c < 9 ==> spec_section_ok(#[trigger] t[c])
}

/// The box gate is satisfied: fired once, it sweeps the 9 disjoint 3x3
/// blocks and demands the sum and product identities of each.
pub open spec fn spec_box_gate_ok(t: Seq<Seq<u64>>) -> bool {
    forall|b: int| 0 <= b < 9 ==> spec_section_ok(#[trigger] spec_box_cells(t, b))
}

/// Collects the cells that the cross-section identity reads at position
/// `p`: Sudoku column `p`.
pub fn column_cells(table: &FilledTable, p: usize) -> (cells: Vec<u64>)
    requires
        table.wf(),
        p < 9,
    ensures
        cells@ == spec_column_cells(table.advice_view(), p as int),
{
    let mut cells: Vec<u64> = Vec::new();
    for c in 0..9
        invariant
            table.wf(),
            p < 9,
            cells@.len() == c,
            forall|i: int| 0 <= i < c ==> cells@[i] == table.advice_view()[i][p as int],
    {
        cells.push(table.advice_cell(c, p));
    }
    proof {
        assert(cells@ =~= spec_column_cells(table.advice_view(), p as int));
    }
    cells
}

/// Collects the cells of table column `c`: Sudoku row `c`.
pub fn row_cells(table: &FilledTable, c: usize) -> (cells: Vec<u64>)
    requires
        table.wf(),
        c < 9,
    ensures
        cells@ == table.advice_view()[c as int],
{
    let mut cells: Vec<u64> = Vec::new();
    for p in 0..9
        invariant
            table.wf(),
            c < 9,
            cells@.len() == p,
            forall|i: int| 0 <= i < p ==> cells@[i] == table.advice_view()[c as int][i],
    {
        cells.push(table.advice_cell(c, p));
    }
    proof {
        assert(cells@ =~= table.advice_view()[c as int]);
    }
    cells
}

/// Collects the cells that the box identity reads for box `b`, in sweep
/// order.
pub fn box_cells(table: &FilledTable, b: usize) -> (cells: Vec<u64>)
    requires
        table.wf(),
        b < 9,
    ensures
        cells@ == spec_box_cells(table.advice_view(), b as int),
{
    let mut cells: Vec<u64> = Vec::new();
    for k in 0..9
        invariant
            table.wf(),
            b < 9,
            cells@.len() == k,
            forall|i: int| 0 <= i < k ==> cells@[i] == spec_box_cells(table.advice_view(), b as int)[i],
    {
        let col = (b / 3) * 3 + k / 3;
        let pos = (b % 3) * 3 + k % 3;
        proof {
            assert(spec_box_cell(b as int, k as int) == (col as int, pos as int));
        }
        cells.push(table.advice_cell(col, pos));
    }
    proof {
        assert(cells@ =~= spec_box_cells(table.advice_view(), b as int));
    }
    cells
}

/// Evaluates the range-check gate over the whole table.
pub fn range_gate_satisfied(table: &FilledTable) -> (ok: bool)
    requires
        table.wf(),
    ensures
        ok == spec_range_gate_ok(table.advice_view()),
{
    let mut ok = true;
    for c in 0..9
        invariant
            table.wf(),
            ok == (forall|i: int, p: int|
                0 <= i < c && 0 <= p < 9 ==> range_poly(
                    #[trigger] table.advice_view()[i][p] as int,
                ) == 0),
    {
        for p in 0..9
            invariant
                table.wf(),
                c < 9,
                ok == (forall|i: int, q: int|
                    (0 <= i < c && 0 <= q < 9) || (i == c && 0 <= q < p) ==> range_poly(
                        #[trigger] table.advice_view()[i][q] as int,
                    ) == 0),
        {
            let valid = digit_in_range(table.advice_cell(c, p));
            ok = ok && valid;
        }
    }
    ok
}

/// Evaluates the cross-section gate: the sum and product identities at
/// every position, that is over every Sudoku column.
pub fn cross_section_gate_satisfied(table: &FilledTable) -> (ok: bool)
    requires
        table.wf(),
    ensures
        ok == spec_cross_section_gate_ok(table.advice_view()),
{
    let mut ok = true;
    for p in 0..9
        invariant
            table.wf(),
            ok == (forall|q: int|
                0 <= q < p ==> spec_section_ok(
                    #[trigger] spec_column_cells(table.advice_view(), q),
                )),
    {
        let cells = column_cells(table, p);
        let sat = section_satisfied(&cells);
        ok = ok && sat;
    }
    ok
}

/// Evaluates the row gate: the sum and product identities within every
/// table column, that is over every Sudoku row.
pub fn row_gate_satisfied(table: &FilledTable) -> (ok: bool)
    requires
        table.wf(),
    ensures
        ok == spec_row_gate_ok(table.advice_view()),
{
    let mut ok = true;
    for c in 0..9
        invariant
            table.wf(),
            ok == (forall|i: int|
                0 <= i < c ==> spec_section_ok(#[trigger] table.advice_view()[i])),
    {
        let cells = row_cells(table, c);
        let sat = section_satisfied(&cells);
        ok = ok && sat;
    }
    ok
}

/// Evaluates the box gate: the sum and product identities over each of the
/// 9 disjoint 3x3 blocks.
pub fn box_gate_satisfied(table: &FilledTable) -> (ok: bool)
    requires
        table.wf(),
    ensures
        ok == spec_box_gate_ok(table.advice_view()),
{
    let mut ok = true;
    for b in 0..9
        invariant
            table.wf(),
            ok == (forall|i: int|
                0 <= i < b ==> spec_section_ok(#[trigger] spec_box_cells(table.advice_view(), i))),
    {
        let cells = box_cells(table, b);
        let sat = section_satisfied(&cells);
        ok = ok && sat;
    }
    ok
}

/// The outcome of running the four compiled gates over one witness table:
/// one verdict per gate, so a violation names the identity it breaks.
#[derive(Clone, Copy, Debug, PartialEq, Eq, Structural)]
pub struct GateReport {
    pub range_check_ok: bool,
    pub cross_section_ok: bool,
    pub row_identity_ok: bool,
    pub box_identity_ok: bool,
}

impl GateReport {
    /// Every gate value came out zero wherever its selector fires.
    pub open spec fn spec_all_satisfied(&self) -> bool {
        &&& self.range_check_ok
        &&& self.cross_section_ok
        &&& self.row_identity_ok
        &&& self.box_identity_ok
    }

    /// Whether every gate was satisfied.
    pub fn all_satisfied(&self) -> (b: bool)
        ensures
            b == self.spec_all_satisfied(),
    {
        self.range_check_ok && self.cross_section_ok && self.row_identity_ok
            && self.box_identity_ok
    }
}

/// Runs the four compiled gates over a witness table, the way a prover
/// judges a witness. The table must carry the selector pattern that
/// assignment establishes, since each gate fires only where its selector is
/// on.
pub fn evaluate(table: &FilledTable) -> (report: GateReport)
    requires
        table.wf(),
        table.selectors_live(),
    ensures
        report.range_check_ok == spec_range_gate_ok(table.advice_view()),
        report.cross_section_ok == spec_cross_section_gate_ok(table.advice_view()),
        report.row_identity_ok == spec_row_gate_ok(table.advice_view()),
        report.box_identity_ok == spec_box_gate_ok(table.advice_view()),
{
    GateReport {
        range_check_ok: range_gate_satisfied(table),
        cross_section_ok: cross_section_gate_satisfied(table),
        row_identity_ok: row_gate_satisfied(table),
        box_identity_ok: box_gate_satisfied(table),
    }
}

} // verus!
