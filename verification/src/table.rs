use vstd::prelude::*;

use crate::grid::is_square;

verus! {

/// One concrete witness table, produced by one assignment and independent of
/// every other assignment.
///
/// `advice[c][p]` is the committed digit at table column `c`, position `p`,
/// which carries the grid cell at row `c`, column `p`. `instance[c][p]`
/// holds the public inputs in the same column order. `linked[c][p]` records
/// an equality constraint: the advice cell is enforced equal to the
/// instance cell at the same index, beyond merely receiving its value. The
/// two selector assignments record per position whether each selector is
/// on.
pub struct FilledTable {
    advice: Vec<Vec<u64>>,
    instance: Vec<Vec<u64>>,
    linked: Vec<Vec<bool>>,
    always_enabled: Vec<bool>,
    only_first_enabled: Vec<bool>,
}

impl FilledTable {
    /// The committed digits, one inner sequence per table column.
    pub closed spec fn advice_view(&self) -> Seq<Seq<u64>> {
        self.advice.deep_view()
    }

    /// The public inputs, one inner sequence per instance column.
    pub closed spec fn instance_view(&self) -> Seq<Seq<u64>> {
        self.instance.deep_view()
    }

    /// Which advice cells carry an equality link to their instance cells.
    pub closed spec fn linked_view(&self) -> Seq<Seq<bool>> {
        self.linked.deep_view()
    }

    /// The per-position assignment of the selector that arms identities
    /// repeating at each position.
    pub closed spec fn always_enabled_view(&self) -> Seq<bool> {
        self.always_enabled@
    }

    /// The per-position assignment of the selector that arms identities
    /// running a single time per proof.
    pub closed spec fn only_first_enabled_view(&self) -> Seq<bool> {
        self.only_first_enabled@
    }

    /// The table has the compiled shape: 9 columns of 9 positions for the
    /// advice, instance and copy-link matrices, and one flag per position
    /// for each selector.
    pub open spec fn wf(&self) -> bool {
        &&& is_square(self.advice_view())
        &&& is_square(self.instance_view())
        &&& self.linked_view().len() == 9
        &&& forall|c: int| 0 <= c < 9 ==> (#[trigger] self.linked_view()[c]).len() == 9
        &&& self.always_enabled_view().len() == 9
        &&& self.only_first_enabled_view().len() == 9
    }

    /// The selector pattern that assignment establishes: the always-on
    /// selector at every position, the once-per-proof selector at position 0
    /// and nowhere else.
    pub open spec fn selectors_live(&self) -> bool {
        &&& forall|p: int| 0 <= p < 9 ==> #[trigger] self.always_enabled_view()[p]
        &&& forall|p: int| 0 <= p < 9 ==> (#[trigger] self.only_first_enabled_view()[p] <==> p
            == 0)
    }

    /// Assembles a table from its parts; assignment builds the parts and
    /// states what they hold.
    pub(crate) fn from_parts(
        advice: Vec<Vec<u64>>,
        instance: Vec<Vec<u64>>,
        linked: Vec<Vec<bool>>,
        always_enabled: Vec<bool>,
        only_first_enabled: Vec<bool>,
    ) -> (t: FilledTable)
        ensures
            t.advice_view() == advice.deep_view(),
            t.instance_view() == instance.deep_view(),
            t.linked_view() == linked.deep_view(),
            t.always_enabled_view() == always_enabled@,
            t.only_first_enabled_view() == only_first_enabled@,
    {
        FilledTable { advice, instance, linked, always_enabled, only_first_enabled }
    }

    /// Reads the committed digit at table column `col`, position `pos`.
    pub fn advice_cell(&self, col: usize, pos: usize) -> (v: u64)
        requires
            self.wf(),
            col < 9,
            pos < 9,
        ensures
            v == self.advice_view()[col as int][pos as int],
    {
        proof {
            assert(self.advice@.len() == self.advice_view().len());
            assert(self.advice@[col as int]@.len() == self.advice_view()[col as int].len());
        }
        self.advice[col][pos]
    }

    /// Reads the public input value at instance column `col`, position `pos`.
    pub fn instance_cell(&self, col: usize, pos: usize) -> (v: u64)
        requires
            self.wf(),
            col < 9,
            pos < 9,
        ensures
            v == self.instance_view()[col as int][pos as int],
    {
        proof {
            assert(self.instance@.len() == self.instance_view().len());
            assert(self.instance@[col as int]@.len() == self.instance_view()[col as int].len());
        }
        self.instance[col][pos]
    }

    /// Whether the advice cell at table column `col`, position `pos` is
    /// tied by equality to its instance cell.
    pub fn is_linked(&self, col: usize, pos: usize) -> (b: bool)
        requires
            self.wf(),
            col < 9,
            pos < 9,
        ensures
            b == self.linked_view()[col as int][pos as int],
    {
        proof {
            assert(self.linked@.len() == self.linked_view().len());
            assert(self.linked@[col as int]@.len() == self.linked_view()[col as int].len());
        }
        self.linked[col][pos]
    }

    /// Whether the every-position selector is on at `pos`.
    pub fn always_enabled_at(&self, pos: usize) -> (b: bool)
        requires
            self.wf(),
            pos < 9,
        ensures
            b == self.always_enabled_view()[pos as int],
    {
        self.always_enabled[pos]
    }

    /// Whether the once-per-proof selector is on at `pos`.
    pub fn only_first_enabled_at(&self, pos: usize) -> (b: bool)
        requires
            self.wf(),
            pos < 9,
        ensures
            b == self.only_first_enabled_view()[pos as int],
    {
        self.only_first_enabled[pos]
    }
}

} // verus!
