//! The VNI to VLAN ledger: a bijective table of bindings whose VLAN tags are
//! handed out one above the highest tag in use. The rules of allocation and
//! release are stated here over the table as a sequence of rows, with the
//! laws they obey. `Ledger` keeps such a table in memory and is the model of
//! the SQLite store: both make their decisions through `allocation_step` and
//! `settle`, and `law_store_decisions_follow_model` shows that on reads that
//! match a table those decisions are the table's allocation and release.
//! That the store holds no two rows with one tag or one VNI rests on the
//! uniqueness constraints of its schema, not on a proof here.
use vstd::prelude::*;

verus! {

/// One binding of the ledger: a VXLAN network identifier and its local VLAN tag.
#[derive(Clone, Copy, Debug, PartialEq, Eq, Structural)]
pub struct Vni {
    pub vlan: u16,
    pub vni: u32,
}

/// Why a ledger operation did not complete.
#[derive(Debug)]
pub enum LedgerError {
    /// The store could not be read or written.
    Storage(rusqlite::Error),
    /// No binding exists for the VNI.
    NotFound,
    /// Every VLAN tag above the highest one in use is taken.
    Exhausted,
}

/// No two rows share a VLAN tag or a VNI.
pub open spec fn bijective(rows: Seq<Vni>) -> bool {
    &&& forall|i: int, j: int|
        0 <= i < rows.len() && 0 <= j < rows.len() && i != j ==> #[trigger] rows[i].vlan
            != #[trigger] rows[j].vlan
    &&& forall|i: int, j: int|
        0 <= i < rows.len() && 0 <= j < rows.len() && i != j ==> #[trigger] rows[i].vni
            != #[trigger] rows[j].vni
}

/// Where the binding of `vni` stands in `rows` (the last such row), or -1.
pub open spec fn index_of(rows: Seq<Vni>, vni: u32) -> int
    decreases rows.len(),
{
    if rows.len() == 0 {
        -1
    } else if rows.last().vni == vni {
        rows.len() - 1
    } else {
        index_of(rows.drop_last(), vni)
    }
}

/// The VLAN tag bound to `vni` in `rows`, if any.
pub open spec fn vlan_of(rows: Seq<Vni>, vni: u32) -> Option<u16> {
    if index_of(rows, vni) >= 0 {
        Some(rows[index_of(rows, vni)].vlan)
    } else {
        None
    }
}

/// The highest VLAN tag in `rows`, if any.
pub open spec fn max_vlan(rows: Seq<Vni>) -> Option<u16>
    decreases rows.len(),
{
    if rows.len() == 0 {
        None
    } else {
        match max_vlan(rows.drop_last()) {
            None => Some(rows.last().vlan),
            Some(m) => if m < rows.last().vlan { Some(rows.last().vlan) } else { Some(m) },
        }
    }
}

/// The tag a new binding gets: `initial` on an empty table, else one above
/// the highest tag, or nothing when that would not fit in 16 bits.
pub open spec fn next_vlan_spec(max: Option<u16>, initial: u16) -> Option<u16> {
    match max {
        None => Some(initial),
        Some(m) => if m < u16::MAX { Some((m + 1) as u16) } else { None },
    }
}

/// Allocation of a tag for `vni`: the table afterwards and the answer.
pub open spec fn allocate(rows: Seq<Vni>, vni: u32, initial: u16) -> (Seq<Vni>, Result<u16, LedgerError>) {
    match vlan_of(rows, vni) {
        Some(v) => (rows, Ok(v)),
        None => match next_vlan_spec(max_vlan(rows), initial) {
            Some(n) => (rows.push(Vni { vlan: n, vni }), Ok(n)),
            None => (rows, Err(LedgerError::Exhausted)),
        },
    }
}

/// Release of the binding of `vni`: the table afterwards and the freed tag.
pub open spec fn release(rows: Seq<Vni>, vni: u32) -> (Seq<Vni>, Result<u16, LedgerError>) {
    match vlan_of(rows, vni) {
        Some(v) => (rows.remove(index_of(rows, vni)), Ok(v)),
        None => (rows, Err(LedgerError::NotFound)),
    }
}

/// `index_of` finds a row holding `vni`, and finds none only where no row holds it.
pub proof fn lemma_index_of(rows: Seq<Vni>, vni: u32)
    ensures
        -1 <= index_of(rows, vni) < rows.len(),
        index_of(rows, vni) >= 0 ==> rows[index_of(rows, vni)].vni == vni,
        index_of(rows, vni) == -1 <==> forall|i: int| 0 <= i < rows.len() ==> #[trigger] rows[i].vni != vni,
    decreases rows.len(),
{
    if rows.len() > 0 {
        let d = rows.drop_last();
        lemma_index_of(d, vni);
        assert forall|i: int| 0 <= i < d.len() implies d[i] == rows[i] by {}
        if rows.last().vni != vni && index_of(d, vni) == -1 {
            assert forall|i: int| 0 <= i < rows.len() implies #[trigger] rows[i].vni != vni by {
                if i < d.len() {
                    assert(d[i].vni != vni);
                }
            }
        }
    }
}

/// `max_vlan` bounds every tag of a non-empty table.
pub proof fn lemma_max_vlan(rows: Seq<Vni>)
    ensures
        max_vlan(rows) is None <==> rows.len() == 0,
        max_vlan(rows) is Some ==> forall|i: int| 0 <= i < rows.len() ==> #[trigger] rows[i].vlan <= max_vlan(rows)->Some_0,
    decreases rows.len(),
{
    if rows.len() > 0 {
        lemma_max_vlan(rows.drop_last());
        let d = rows.drop_last();
        assert forall|i: int| 0 <= i < d.len() implies d[i] == rows[i] by {}
    }
}

/// A row with a fresh VNI and a fresh tag keeps the table bijective.
pub proof fn lemma_push_keeps_bijection(rows: Seq<Vni>, row: Vni)
    requires
        bijective(rows),
        forall|i: int| 0 <= i < rows.len() ==> #[trigger] rows[i].vni != row.vni,
        forall|i: int| 0 <= i < rows.len() ==> #[trigger] rows[i].vlan != row.vlan,
    ensures
        bijective(rows.push(row)),
{
    let p = rows.push(row);
    assert forall|i: int| 0 <= i < rows.len() implies p[i] == rows[i] by {}
}

/// Removing any row keeps the table bijective.
pub proof fn lemma_remove_keeps_bijection(rows: Seq<Vni>, k: int)
    requires
        bijective(rows),
        0 <= k < rows.len(),
    ensures
        bijective(rows.remove(k)),
{
    let r = rows.remove(k);
    assert forall|i: int| 0 <= i < r.len() implies #[trigger] r[i] == rows[if i < k { i } else { i + 1 }] by {}
    assert forall|i: int, j: int| 0 <= i < r.len() && 0 <= j < r.len() && i != j implies #[trigger] r[i].vlan
        != #[trigger] r[j].vlan && r[i].vni != r[j].vni by {
        let a = if i < k { i } else { i + 1 };
        let b = if j < k { j } else { j + 1 };
        assert(rows[a].vlan != rows[b].vlan);
        assert(rows[a].vni != rows[b].vni);
    }
}

/// An in-memory ledger: the table of bindings and the tag that the first
/// binding of an empty table gets.
pub struct Ledger {
    rows: Vec<Vni>,
    initial_vlan: u16,
}

impl View for Ledger {
    type V = Seq<Vni>;

    closed spec fn view(&self) -> Seq<Vni> {
        self.rows@
    }
}

impl Ledger {
    /// The tag that the first binding of an empty table gets.
    pub closed spec fn initial(&self) -> u16 {
        self.initial_vlan
    }

    pub open spec fn wf(&self) -> bool {
        bijective(self@)
    }

    /// An empty ledger whose first binding gets `initial_vlan`.
    pub fn new(initial_vlan: u16) -> (r: Ledger)
        ensures
            r@ == Seq::<Vni>::empty(),
            r.initial() == initial_vlan,
            r.wf(),
    {
        Ledger { rows: Vec::new(), initial_vlan }
    }

    /// Where the binding of `vni` stands in the table.
    fn find(&self, vni: u32) -> (r: Option<usize>)
        ensures
            r is Some <==> index_of(self@, vni) >= 0,
            r is Some ==> r->Some_0 == index_of(self@, vni) && r->Some_0 < self@.len(),
    {
        proof {
            lemma_index_of(self@, vni);
        }
        let mut i: usize = self.rows.len();
        assert(self.rows@.subrange(0, i as int) =~= self.rows@);
        while i > 0
            invariant
                i <= self.rows@.len(),
                index_of(self@, vni) == index_of(self.rows@.subrange(0, i as int), vni),
            decreases i,
        {
            let ghost prefix = self.rows@.subrange(0, i as int);
            assert(prefix.drop_last() =~= self.rows@.subrange(0, i - 1));
            if self.rows[i - 1].vni == vni {
                return Some(i - 1);
            }
            i = i - 1;
        }
        proof {
            assert(self.rows@.subrange(0, 0) =~= Seq::<Vni>::empty());
        }
        None
    }

    /// The VLAN tag bound to `vni`, if any.
    pub fn get_vlan(&self, vni: u32) -> (r: Option<u16>)
        ensures
            r == vlan_of(self@, vni),
    {
        match self.find(vni) {
            Some(i) => Some(self.rows[i].vlan),
            None => None,
        }
    }

    /// The highest VLAN tag in the table, if any.
    pub fn highest_vlan(&self) -> (r: Option<u16>)
        ensures
            r == max_vlan(self@),
    {
        let mut m: Option<u16> = None;
        let mut i: usize = 0;
        while i < self.rows.len()
            invariant
                i <= self.rows@.len(),
                m == max_vlan(self.rows@.subrange(0, i as int)),
            decreases self.rows@.len() - i,
        {
            let ghost prefix = self.rows@.subrange(0, i + 1);
            assert(prefix.drop_last() =~= self.rows@.subrange(0, i as int));
            let v = self.rows[i].vlan;
            m = match m {
                None => Some(v),
                Some(x) => if x < v { Some(v) } else { Some(x) },
            };
            i = i + 1;
        }
        proof {
            assert(self.rows@.subrange(0, i as int) =~= self.rows@);
        }
        m
    }

    /// Binds `vni` to a tag and returns it: its present tag where it has one,
    /// else the next tag after the highest in use (the initial tag on an
    /// empty table).
    pub fn add_vni(&mut self, vni: u32) -> (r: Result<u16, LedgerError>)
        requires
            old(self).wf(),
        ensures
            final(self).wf(),
            final(self).initial() == old(self).initial(),
            (final(self)@, r) == allocate(old(self)@, vni, old(self).initial()),
    {
        let existing = self.get_vlan(vni);
        let max = self.highest_vlan();
        match allocation_step(existing, max, self.initial_vlan) {
            AllocStep::Present(v) => Ok(v),
            AllocStep::Exhausted => Err(LedgerError::Exhausted),
            AllocStep::Insert(n) => {
                proof {
                    lemma_index_of(self@, vni);
                    lemma_max_vlan(self@);
                    assert forall|i: int| 0 <= i < self@.len() implies #[trigger] self@[i].vlan != n by {
                        assert(self@[i].vlan <= max_vlan(self@)->Some_0);
                    }
                    lemma_push_keeps_bijection(self@, Vni { vlan: n, vni });
                }
                self.rows.push(Vni { vlan: n, vni });
                Ok(n)
            },
        }
    }

    /// Removes the binding of `vni` and returns the tag it held.
    pub fn remove_vni(&mut self, vni: u32) -> (r: Result<u16, LedgerError>)
        requires
            old(self).wf(),
        ensures
            final(self).wf(),
            final(self).initial() == old(self).initial(),
            (final(self)@, r) == release(old(self)@, vni),
    {
        match self.find(vni) {
            None => settle(None),
            Some(i) => {
                proof {
                    lemma_remove_keeps_bijection(self@, i as int);
                }
                let row = self.rows.remove(i);
                settle(Some(row.vlan))
            },
        }
    }

    /// Every binding of the table.
    pub fn list_vni(&self) -> (r: Vec<Vni>)
        ensures
            r@ == self@,
    {
        self.rows.clone()
    }
}

/// The tag a new binding gets, given the highest tag in use.
pub fn next_vlan(max: Option<u16>, initial: u16) -> (r: Option<u16>)
    ensures
        r == next_vlan_spec(max, initial),
{
    match max {
        None => Some(initial),
        Some(m) => if m < u16::MAX { Some(m + 1) } else { None },
    }
}

/// What an allocation does, given what the table holds.
#[derive(Clone, Copy, Debug, PartialEq, Eq, Structural)]
pub enum AllocStep {
    /// The VNI is bound already: answer its tag, insert nothing.
    Present(u16),
    /// Insert a binding of the VNI with this tag.
    Insert(u16),
    /// No tag is left above the highest in use: insert nothing.
    Exhausted,
}

/// The allocation decision for a VNI whose lookup gave `existing`, on a
/// table whose highest tag is `max`.
pub open spec fn alloc_step_spec(existing: Option<u16>, max: Option<u16>, initial: u16) -> AllocStep {
    match existing {
        Some(v) => AllocStep::Present(v),
        None => match next_vlan_spec(max, initial) {
            Some(n) => AllocStep::Insert(n),
            None => AllocStep::Exhausted,
        },
    }
}

/// The answer given the tag found for a VNI: that tag, or `NotFound`.
pub open spec fn settle_spec(found: Option<u16>) -> Result<u16, LedgerError> {
    match found {
        Some(v) => Ok(v),
        None => Err(LedgerError::NotFound),
    }
}

/// Decides an allocation from the lookup of the VNI and the highest tag.
pub fn allocation_step(existing: Option<u16>, max: Option<u16>, initial: u16) -> (r: AllocStep)
    ensures
        r == alloc_step_spec(existing, max, initial),
        existing matches Some(v) ==> r == AllocStep::Present(v),
        existing is None ==> match next_vlan_spec(max, initial) {
            Some(n) => r == AllocStep::Insert(n),
            None => r is Exhausted,
        },
{
    match existing {
        Some(v) => AllocStep::Present(v),
        None => match next_vlan(max, initial) {
            Some(n) => AllocStep::Insert(n),
            None => AllocStep::Exhausted,
        },
    }
}

/// The answer of a lookup that must find the VNI: the tag found, or
/// `NotFound`. A release answers with it before deleting anything; an
/// allocation answers with it after rereading what the table holds.
pub fn settle(found: Option<u16>) -> (r: Result<u16, LedgerError>)
    ensures
        r == settle_spec(found),
        found matches Some(v) ==> (r matches Ok(w) && w == v),
        found is None ==> (r matches Err(e) && e is NotFound),
{
    match found {
        Some(v) => Ok(v),
        None => Err(LedgerError::NotFound),
    }
}

/// The decisions that a store makes from its reads are those of the table
/// model: where the lookup, the highest tag and the reread return what a
/// bijective table `rows` holds, the store's allocation answers and inserts
/// what `allocate` does, and its release answers what `release` does.
pub proof fn law_store_decisions_follow_model(rows: Seq<Vni>, vni: u32, initial: u16)
    requires
        bijective(rows),
    ensures
        alloc_step_spec(vlan_of(rows, vni), max_vlan(rows), initial) matches AllocStep::Present(v)
            ==> allocate(rows, vni, initial) == (rows, Ok::<u16, LedgerError>(v)),
        alloc_step_spec(vlan_of(rows, vni), max_vlan(rows), initial) matches AllocStep::Insert(n)
            ==> allocate(rows, vni, initial).0 == rows.push(Vni { vlan: n, vni })
            && settle_spec(vlan_of(allocate(rows, vni, initial).0, vni)) == allocate(rows, vni, initial).1,
        alloc_step_spec(vlan_of(rows, vni), max_vlan(rows), initial) is Exhausted
            ==> allocate(rows, vni, initial) == (rows, Err::<u16, LedgerError>(LedgerError::Exhausted)),
        settle_spec(vlan_of(rows, vni)) == release(rows, vni).1,
{
    if let AllocStep::Insert(n) = alloc_step_spec(vlan_of(rows, vni), max_vlan(rows), initial) {
        lemma_vlan_of_push(rows, Vni { vlan: n, vni });
    }
}

/// One call on the ledger.
pub enum LedgerOp {
    Allocate(u32),
    Release(u32),
}

/// The table after `ops`, applied in order from `rows`.
pub open spec fn replay(rows: Seq<Vni>, ops: Seq<LedgerOp>, initial: u16) -> Seq<Vni>
    decreases ops.len(),
{
    if ops.len() == 0 {
        rows
    } else {
        let before = replay(rows, ops.drop_last(), initial);
        match ops.last() {
            LedgerOp::Allocate(vni) => allocate(before, vni, initial).0,
            LedgerOp::Release(vni) => release(before, vni).0,
        }
    }
}

/// One allocation or release keeps the table bijective.
pub proof fn law_step_keeps_bijection(rows: Seq<Vni>, vni: u32, initial: u16)
    requires
        bijective(rows),
    ensures
        bijective(allocate(rows, vni, initial).0),
        bijective(release(rows, vni).0),
{
    lemma_index_of(rows, vni);
    if vlan_of(rows, vni) is None {
        if let Some(n) = next_vlan_spec(max_vlan(rows), initial) {
            lemma_max_vlan(rows);
            assert forall|i: int| 0 <= i < rows.len() implies #[trigger] rows[i].vlan != n by {
                assert(rows[i].vlan <= max_vlan(rows)->Some_0);
            }
            lemma_push_keeps_bijection(rows, Vni { vlan: n, vni });
        }
    } else {
        lemma_remove_keeps_bijection(rows, index_of(rows, vni));
    }
}

/// Whatever sequence of allocations and releases runs from a bijective
/// table, no two rows ever share a VLAN tag or a VNI.
pub proof fn law_bijection(rows: Seq<Vni>, ops: Seq<LedgerOp>, initial: u16)
    requires
        bijective(rows),
    ensures
        bijective(replay(rows, ops, initial)),
    decreases ops.len(),
{
    if ops.len() > 0 {
        law_bijection(rows, ops.drop_last(), initial);
        let before = replay(rows, ops.drop_last(), initial);
        match ops.last() {
            LedgerOp::Allocate(vni) => law_step_keeps_bijection(before, vni, initial),
            LedgerOp::Release(vni) => law_step_keeps_bijection(before, vni, initial),
        }
    }
}

/// A new VNI on an empty table gets the initial tag; on any other table it
/// gets one above the highest tag in use.
pub proof fn law_allocation_monotonic(rows: Seq<Vni>, vni: u32, initial: u16)
    requires
        vlan_of(rows, vni) is None,
    ensures
        rows.len() == 0 ==> allocate(rows, vni, initial).1 == Ok::<u16, LedgerError>(initial),
        rows.len() > 0 && max_vlan(rows)->Some_0 < u16::MAX ==> allocate(rows, vni, initial).1
            == Ok::<u16, LedgerError>((max_vlan(rows)->Some_0 + 1) as u16),
{
    lemma_max_vlan(rows);
}

/// A freshly pushed binding is the one found for its VNI.
pub proof fn lemma_vlan_of_push(rows: Seq<Vni>, row: Vni)
    ensures
        vlan_of(rows.push(row), row.vni) == Some(row.vlan),
{
    let p = rows.push(row);
    assert(p.drop_last() =~= rows);
    assert(p.last() == row);
}

/// Allocating the same VNI twice gives the same tag both times, leaves the
/// table as the first call left it, and that table holds exactly one row
/// for the VNI.
pub proof fn law_allocate_idempotent(rows: Seq<Vni>, vni: u32, initial: u16)
    requires
        bijective(rows),
        allocate(rows, vni, initial).1 is Ok,
    ensures
        allocate(allocate(rows, vni, initial).0, vni, initial) == allocate(rows, vni, initial),
        exists|i: int|
            0 <= i < allocate(rows, vni, initial).0.len() && #[trigger] allocate(rows, vni, initial).0[i].vni
                == vni && forall|j: int|
                0 <= j < allocate(rows, vni, initial).0.len() && j != i ==> #[trigger] allocate(
                    rows,
                    vni,
                    initial,
                ).0[j].vni != vni,
{
    let after = allocate(rows, vni, initial).0;
    law_step_keeps_bijection(rows, vni, initial);
    lemma_index_of(rows, vni);
    if vlan_of(rows, vni) is None {
        lemma_vlan_of_push(rows, Vni { vlan: allocate(rows, vni, initial).1->Ok_0, vni });
    }
    lemma_index_of(after, vni);
    let i = index_of(after, vni);
    assert forall|j: int| 0 <= j < after.len() && j != i implies #[trigger] after[j].vni != vni by {
        assert(after[i].vni == vni);
    }
}

/// Releasing a bound VNI removes exactly its row and returns its tag;
/// releasing an unbound one fails with `NotFound` and changes nothing.
pub proof fn law_release(rows: Seq<Vni>, vni: u32)
    requires
        bijective(rows),
    ensures
        vlan_of(rows, vni) is None ==> release(rows, vni) == (rows, Err::<u16, LedgerError>(LedgerError::NotFound)),
        vlan_of(rows, vni) is Some ==> exists|i: int|
            0 <= i < rows.len() && #[trigger] rows[i] == (Vni { vlan: vlan_of(rows, vni)->Some_0, vni })
                && release(rows, vni) == (rows.remove(i), Ok::<u16, LedgerError>(rows[i].vlan)),
        vlan_of(release(rows, vni).0, vni) is None,
{
    lemma_index_of(rows, vni);
    if vlan_of(rows, vni) is Some {
        let k = index_of(rows, vni);
        let r = rows.remove(k);
        assert(rows[k] == (Vni { vlan: vlan_of(rows, vni)->Some_0, vni }));
        lemma_index_of(r, vni);
        assert forall|i: int| 0 <= i < r.len() implies #[trigger] r[i].vni != vni by {
            let a = if i < k { i } else { i + 1 };
            assert(r[i] == rows[a]);
            assert(rows[a].vni != rows[k].vni);
        }
    }
}

/// A VNI just allocated is found with the tag the allocation gave; a VNI
/// just released is not found.
pub proof fn law_round_trip(rows: Seq<Vni>, vni: u32, initial: u16)
    requires
        bijective(rows),
    ensures
        allocate(rows, vni, initial).1 is Ok ==> vlan_of(allocate(rows, vni, initial).0, vni) == Some(
            allocate(rows, vni, initial).1->Ok_0,
        ),
        vlan_of(release(rows, vni).0, vni) is None,
{
    if vlan_of(rows, vni) is None && allocate(rows, vni, initial).1 is Ok {
        lemma_vlan_of_push(rows, Vni { vlan: allocate(rows, vni, initial).1->Ok_0, vni });
    }
    law_release(rows, vni);
}

} // verus!
