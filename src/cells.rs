use vstd::prelude::*;
use crate::cell::{Cell, CellSpec, CellState, CellsError, error_cell};
use crate::names::CellName;

verus! {

/// The registry's invariants over its map: each entry is keyed by its own
/// name, so one name has at most one cell, and each entry is a cell that was
/// allocated.
/// The registry after it has been reconciled with what the filesystem
/// showed for `name`: an entry whose cgroup is gone is stale and dropped.
pub open spec fn reconciled(m: Map<Seq<char>, Cell>, name: Seq<char>, cgroup_exists: bool) -> Map<
    Seq<char>,
    Cell,
> {
    if cgroup_exists {
        m
    } else {
        m.remove(name)
    }
}

/// The names held by a list of cell names.
pub open spec fn name_set(names: Seq<CellName>) -> Set<Seq<char>> {
    Set::new(|k: Seq<char>| exists|i: int| 0 <= i < names.len() && (#[trigger] names[i])@ == k)
}

/// The registry after a graceful broadcast in which the cells named in
/// `freed` shut down.
pub open spec fn after_broadcast_free(m: Map<Seq<char>, Cell>, freed: Set<Seq<char>>) -> Map<
    Seq<char>,
    Cell,
> {
    m.remove_keys(freed)
}

/// The registry after a kill broadcast: a kill always succeeds.
pub open spec fn after_broadcast_kill(m: Map<Seq<char>, Cell>) -> Map<Seq<char>, Cell> {
    Map::empty()
}

/// Whether the outcome of shutting a cell down ends its entry: on success,
/// and when the cell turned out not to be allocated.
pub open spec fn removes_entry(outcome: Result<(), CellsError>) -> bool {
    match outcome {
        Ok(()) => true,
        Err(e) => e is CellNotAllocated,
    }
}

pub open spec fn cells_invariant(m: Map<Seq<char>, Cell>) -> bool {
    forall|k: Seq<char>| #[trigger] m.contains_key(k) ==> m[k].name@ == k && m[k].state is Allocated
}

/// The in-memory registry of cells, keyed by cell name.
///
/// The cgroup filesystem is the ground truth: each operation is handed what
/// the caller observed there (`cgroup_exists`) and reconciles the registry
/// with it before it answers.
pub struct Cells {
    cache: Vec<Cell>,
    model: Ghost<Map<Seq<char>, Cell>>,
}

impl View for Cells {
    type V = Map<Seq<char>, Cell>;

    closed spec fn view(&self) -> Map<Seq<char>, Cell> {
        self.model@
    }
}

impl Cells {
    pub closed spec fn wf(&self) -> bool {
        &&& forall|i: int, j: int|
            0 <= i < self.cache@.len() && 0 <= j < self.cache@.len() && i != j
                ==> (#[trigger] self.cache@[i]).name@ != (#[trigger] self.cache@[j]).name@
        &&& forall|i: int|
            0 <= i < self.cache@.len() ==> self.model@.contains_key(
                (#[trigger] self.cache@[i]).name@,
            ) && self.model@[self.cache@[i].name@] == self.cache@[i]
        &&& forall|k: Seq<char>| #[trigger]
            self.model@.contains_key(k) ==> exists|i: int|
                0 <= i < self.cache@.len() && (#[trigger] self.cache@[i]).name@ == k
        &&& cells_invariant(self.model@)
    }

    /// An empty registry.
    pub fn new() -> (r: Cells)
        ensures
            r.wf(),
            r@ == Map::<Seq<char>, Cell>::empty(),
    {
        Cells { cache: Vec::new(), model: Ghost(Map::empty()) }
    }

    pub fn is_empty(&self) -> (r: bool)
        requires
            self.wf(),
        ensures
            r == (self@ == Map::<Seq<char>, Cell>::empty()),
    {
        if self.cache.len() == 0 {
            assert(self@ =~= Map::<Seq<char>, Cell>::empty());
            true
        } else {
            assert(self@.contains_key(self.cache@[0].name@));
            false
        }
    }

    /// Whether the registry holds a cell named `cell_name`.
    pub fn contains(&self, cell_name: &CellName) -> (r: bool)
        requires
            self.wf(),
        ensures
            r == self@.contains_key(cell_name@),
    {
        self.find(cell_name).is_some()
    }

    fn find(&self, cell_name: &CellName) -> (r: Option<usize>)
        requires
            self.wf(),
        ensures
            r is None <==> !self@.contains_key(cell_name@),
            r matches Some(i) ==> i < self.cache@.len() && self.cache@[i as int].name@
                == cell_name@,
    {
        let mut i: usize = 0;
        while i < self.cache.len()
            invariant
                self.wf(),
                i <= self.cache@.len(),
                forall|j: int| 0 <= j < i ==> (#[trigger] self.cache@[j]).name@ != cell_name@,
            decreases self.cache@.len() - i,
        {
            if self.cache[i].name == *cell_name {
                return Some(i);
            }
            i = i + 1;
        }
        proof {
            if self@.contains_key(cell_name@) {
                let k = cell_name@;
                assert(exists|j: int| 0 <= j < self.cache@.len() && (#[trigger] self.cache@[j]).name@ == k);
            }
        }
        None
    }

    fn remove_at(&mut self, i: usize) -> (r: Cell)
        requires
            old(self).wf(),
            i < old(self).cache@.len(),
        ensures
            final(self).wf(),
            r == old(self).cache@[i as int],
            final(self)@ == old(self)@.remove(r.name@),
    {
        let ghost old_cache = self.cache@;
        let ghost old_model = self.model@;
        let r = self.cache.remove(i);
        let ghost name = r.name@;
        self.model = Ghost(old_model.remove(name));
        proof {
            assert forall|j: int| 0 <= j < self.cache@.len() implies self.model@.contains_key(
                (#[trigger] self.cache@[j]).name@,
            ) && self.model@[self.cache@[j].name@] == self.cache@[j] by {
                if j < i {
                    assert(self.cache@[j] == old_cache[j]);
                    assert(old_cache[j].name@ != old_cache[i as int].name@);
                } else {
                    assert(self.cache@[j] == old_cache[j + 1]);
                    assert(old_cache[j + 1].name@ != old_cache[i as int].name@);
                }
            }
            assert forall|k: Seq<char>| #[trigger]
                self.model@.contains_key(k) implies exists|j: int|
                0 <= j < self.cache@.len() && (#[trigger] self.cache@[j]).name@ == k by {
                assert(old_model.contains_key(k));
                let m = choose|m: int| 0 <= m < old_cache.len() && (#[trigger] old_cache[m]).name@ == k;
                if m < i {
                    assert(self.cache@[m] == old_cache[m]);
                } else {
                    assert(m != i);
                    assert(self.cache@[m - 1] == old_cache[m]);
                }
            }
            assert forall|a: int, b: int|
                0 <= a < self.cache@.len() && 0 <= b < self.cache@.len() && a != b
                    implies (#[trigger] self.cache@[a]).name@ != (#[trigger] self.cache@[b]).name@ by {
                let a2 = if a < i { a } else { a + 1 };
                let b2 = if b < i { b } else { b + 1 };
                assert(self.cache@[a] == old_cache[a2]);
                assert(self.cache@[b] == old_cache[b2]);
            }
        }
        r
    }

    /// Drops the entry of `cell_name`, if any; says whether there was one.
    fn evict(&mut self, cell_name: &CellName) -> (r: bool)
        requires
            old(self).wf(),
        ensures
            final(self).wf(),
            r == old(self)@.contains_key(cell_name@),
            final(self)@ == old(self)@.remove(cell_name@),
    {
        match self.find(cell_name) {
            Some(i) => {
                let _removed = self.remove_at(i);
                true
            },
            None => {
                assert(self@ =~= self@.remove(cell_name@));
                false
            },
        }
    }

    /// Adds an allocated cell under a name that is not taken.
    fn put(&mut self, cell: Cell)
        requires
            old(self).wf(),
            !old(self)@.contains_key(cell.name@),
            cell.state is Allocated,
        ensures
            final(self).wf(),
            final(self)@ == old(self)@.insert(cell.name@, cell),
    {
        let ghost old_cache = self.cache@;
        let ghost old_model = self.model@;
        let ghost c = cell;
        self.cache.push(cell);
        self.model = Ghost(old_model.insert(c.name@, c));
        proof {
            let n = old_cache.len() as int;
            assert(self.cache@[n] == c);
            assert forall|j: int| 0 <= j < self.cache@.len() implies self.model@.contains_key(
                (#[trigger] self.cache@[j]).name@,
            ) && self.model@[self.cache@[j].name@] == self.cache@[j] by {
                if j < n {
                    assert(self.cache@[j] == old_cache[j]);
                    assert(old_model.contains_key(old_cache[j].name@));
                }
            }
            assert forall|k: Seq<char>| #[trigger]
                self.model@.contains_key(k) implies exists|j: int|
                0 <= j < self.cache@.len() && (#[trigger] self.cache@[j]).name@ == k by {
                if k == c.name@ {
                    assert(self.cache@[n].name@ == k);
                } else {
                    assert(old_model.contains_key(k));
                    let m = choose|m: int| 0 <= m < old_cache.len() && (#[trigger] old_cache[m]).name@ == k;
                    assert(self.cache@[m] == old_cache[m]);
                }
            }
            assert forall|a: int, b: int|
                0 <= a < self.cache@.len() && 0 <= b < self.cache@.len() && a != b
                    implies (#[trigger] self.cache@[a]).name@ != (#[trigger] self.cache@[b]).name@ by {
                if a < n {
                    assert(old_model.contains_key(old_cache[a].name@));
                }
                if b < n {
                    assert(old_model.contains_key(old_cache[b].name@));
                }
            }
        }
    }

    /// Turns an allocation down, or admits it and hands back the cell to
    /// build.
    ///
    /// When the cgroup of `cell_name` exists the name is taken: by a cell of
    /// this registry (`CellExists`) or by a cgroup that is no cell of it
    /// (`CgroupIsNotACell`). Otherwise any stale entry of the name is dropped
    /// and a fresh, unallocated cell is returned; once its cgroup and nested
    /// agent are up, [Cell::allocate] and [Cells::insert] record it.
    pub fn allocate(&mut self, cell_name: CellName, cell_spec: CellSpec, cgroup_exists: bool) -> (r:
        Result<Cell, CellsError>)
        requires
            old(self).wf(),
        ensures
            final(self).wf(),
            cells_invariant(final(self)@),
            final(self)@ == reconciled(old(self)@, cell_name@, cgroup_exists),
            r is Ok <==> !cgroup_exists,
            r matches Ok(c) ==> c.name == cell_name && c.spec == cell_spec && c.state is Unallocated,
            r matches Err(e) ==> error_cell(e) == cell_name@ && (if old(self)@.contains_key(
                cell_name@,
            ) {
                e is CellExists
            } else {
                e is CgroupIsNotACell
            }),
    {
        if cgroup_exists {
            return if self.contains(&cell_name) {
                Err(CellsError::CellExists { cell_name })
            } else {
                Err(CellsError::CgroupIsNotACell { cell_name })
            };
        }
        let _stale = self.evict(&cell_name);
        Ok(Cell::new(cell_name, cell_spec))
    }

    /// Records an allocated cell under its name.
    pub fn insert(&mut self, cell: Cell) -> (r: Result<(), CellsError>)
        requires
            old(self).wf(),
        ensures
            final(self).wf(),
            cells_invariant(final(self)@),
            r is Ok <==> !old(self)@.contains_key(cell.name@) && cell.state is Allocated,
            r is Ok ==> final(self)@ == old(self)@.insert(cell.name@, cell),
            r matches Err(e) ==> final(self)@ == old(self)@ && error_cell(e) == cell.name@ && (
            if old(self)@.contains_key(cell.name@) {
                e is CellExists
            } else {
                e is CellNotAllocated
            }),
    {
        if self.contains(&cell.name) {
            return Err(CellsError::CellExists { cell_name: cell.name });
        }
        if !matches!(cell.state, CellState::Allocated { .. }) {
            return Err(CellsError::CellNotAllocated { cell_name: cell.name });
        }
        self.put(cell);
        Ok(())
    }

    /// Reconciles the entry of `cell_name` with the filesystem: with its
    /// cgroup gone the entry is dropped and an error says whether there was
    /// one.
    fn handle_cgroup_does_not_exist(&mut self, cell_name: &CellName, cgroup_exists: bool) -> (r:
        Result<(), CellsError>)
        requires
            old(self).wf(),
        ensures
            final(self).wf(),
            final(self)@ == reconciled(old(self)@, cell_name@, cgroup_exists),
            r is Ok <==> cgroup_exists,
            r matches Err(e) ==> error_cell(e) == cell_name@ && (if old(self)@.contains_key(
                cell_name@,
            ) {
                e is CgroupNotFound
            } else {
                e is CellNotFound
            }),
    {
        if cgroup_exists {
            return Ok(());
        }
        if self.evict(cell_name) {
            Err(CellsError::CgroupNotFound { cell_name: cell_name.copy() })
        } else {
            Err(CellsError::CellNotFound { cell_name: cell_name.copy() })
        }
    }

    /// Turns a free down, or admits it.
    ///
    /// Without a cgroup the request fails: `CellNotFound` when the registry
    /// has no such cell either, else `CgroupNotFound` after the stale entry
    /// is dropped. A cgroup that is no cell of this registry gives
    /// `CgroupIsNotACell`. When the cell is known and its cgroup exists the
    /// free is admitted and the registry unchanged; the caller shuts the cell
    /// down and reports with [Cells::complete_free].
    pub fn free(&mut self, cell_name: &CellName, cgroup_exists: bool) -> (r: Result<(), CellsError>)
        requires
            old(self).wf(),
        ensures
            final(self).wf(),
            cells_invariant(final(self)@),
            final(self)@ == reconciled(old(self)@, cell_name@, cgroup_exists),
            r is Ok <==> cgroup_exists && old(self)@.contains_key(cell_name@),
            r matches Err(e) ==> error_cell(e) == cell_name@ && (if !cgroup_exists {
                if old(self)@.contains_key(cell_name@) {
                    e is CgroupNotFound
                } else {
                    e is CellNotFound
                }
            } else {
                e is CgroupIsNotACell
            }),
    {
        self.handle_cgroup_does_not_exist(cell_name, cgroup_exists)?;
        if !self.contains(cell_name) {
            return Err(CellsError::CgroupIsNotACell { cell_name: cell_name.copy() });
        }
        Ok(())
    }

    /// Settles an admitted free with what shutting the cell down gave: on
    /// success the entry goes; a cell that turned out not to be allocated is
    /// evicted too; any other failure leaves the entry in place.
    pub fn complete_free(&mut self, cell_name: &CellName, outcome: Result<(), CellsError>) -> (r:
        Result<(), CellsError>)
        requires
            old(self).wf(),
        ensures
            final(self).wf(),
            cells_invariant(final(self)@),
            r == outcome,
            removes_entry(outcome) ==> final(self)@ == old(self)@.remove(cell_name@),
            !removes_entry(outcome) ==> final(self)@ == old(self)@,
    {
        let ends = match &outcome {
            Ok(()) => true,
            Err(CellsError::CellNotAllocated { .. }) => true,
            Err(_) => false,
        };
        if ends {
            let _ = self.evict(cell_name);
        }
        outcome
    }

    /// The cell named `cell_name`, after the same reconciliation as
    /// [Cells::free]; a cgroup that is no cell of this registry gives
    /// `CgroupIsNotACell`.
    pub fn get(&mut self, cell_name: &CellName, cgroup_exists: bool) -> (r: Result<&Cell, CellsError>)
        requires
            old(self).wf(),
        ensures
            final(self).wf(),
            final(self)@ == reconciled(old(self)@, cell_name@, cgroup_exists),
            r is Ok <==> cgroup_exists && old(self)@.contains_key(cell_name@),
            r matches Ok(c) ==> *c == old(self)@[cell_name@],
            r matches Err(e) ==> error_cell(e) == cell_name@ && (if !cgroup_exists {
                if old(self)@.contains_key(cell_name@) {
                    e is CgroupNotFound
                } else {
                    e is CellNotFound
                }
            } else {
                e is CgroupIsNotACell
            }),
    {
        self.handle_cgroup_does_not_exist(cell_name, cgroup_exists)?;
        match self.find(cell_name) {
            Some(i) => Ok(&self.cache[i]),
            None => Err(CellsError::CgroupIsNotACell { cell_name: cell_name.copy() }),
        }
    }

    /// The names of all cells, one each.
    pub fn names(&self) -> (r: Vec<CellName>)
        requires
            self.wf(),
        ensures
            name_set(r@) == self@.dom(),
    {
        let mut out: Vec<CellName> = Vec::new();
        let mut i: usize = 0;
        while i < self.cache.len()
            invariant
                self.wf(),
                i <= self.cache@.len(),
                out@.len() == i,
                forall|j: int| 0 <= j < i ==> (#[trigger] out@[j])@ == self.cache@[j].name@,
            decreases self.cache@.len() - i,
        {
            out.push(self.cache[i].name.copy());
            i = i + 1;
        }
        assert forall|k: Seq<char>| name_set(out@).contains(k) <==> self@.dom().contains(k) by {
            if self@.contains_key(k) {
                let m = choose|m: int| 0 <= m < self.cache@.len() && (#[trigger] self.cache@[m]).name@ == k;
                assert(out@[m]@ == k);
            }
            if name_set(out@).contains(k) {
                let m = choose|m: int| 0 <= m < out@.len() && (#[trigger] out@[m])@ == k;
                assert(self.cache@[m].name@ == k);
            }
        }
        assert(name_set(out@) =~= self@.dom());
        out
    }

    /// Drops the entries of every name in `done`.
    fn do_broadcast(&mut self, done: &Vec<CellName>)
        requires
            old(self).wf(),
        ensures
            final(self).wf(),
            final(self)@ == old(self)@.remove_keys(name_set(done@)),
    {
        let ghost start = self@;
        let mut i: usize = 0;
        while i < done.len()
            invariant
                self.wf(),
                i <= done@.len(),
                self@ == start.remove_keys(name_set(done@.take(i as int))),
            decreases done@.len() - i,
        {
            let ghost before = self@;
            let _ = self.evict(&done[i]);
            proof {
                let s0 = name_set(done@.take(i as int));
                let s1 = name_set(done@.take(i + 1));
                assert forall|k: Seq<char>| s1.contains(k) <==> s0.contains(k) || k == done@[i as int]@ by {
                    if s1.contains(k) {
                        let m = choose|m: int| 0 <= m < i + 1 && (#[trigger] done@.take(i + 1)[m])@ == k;
                        if m < i {
                            assert(done@.take(i as int)[m] == done@.take(i + 1)[m]);
                        }
                    }
                    if s0.contains(k) {
                        let m = choose|m: int| 0 <= m < i && (#[trigger] done@.take(i as int)[m])@ == k;
                        assert(done@.take(i as int)[m] == done@.take(i + 1)[m]);
                    }
                    if k == done@[i as int]@ {
                        assert(done@.take(i + 1)[i as int] == done@[i as int]);
                    }
                }
                assert(self@ =~= start.remove_keys(s1));
            }
            i = i + 1;
        }
        assert(done@.take(done@.len() as int) =~= done@);
    }

    /// Settles a graceful shutdown of every cell: the cells named in `freed`
    /// shut down and their entries go; the others stay for
    /// [Cells::broadcast_kill]. Failures of single cells are not reported.
    pub fn broadcast_free(&mut self, freed: &Vec<CellName>)
        requires
            old(self).wf(),
        ensures
            final(self).wf(),
            cells_invariant(final(self)@),
            final(self)@ == after_broadcast_free(old(self)@, name_set(freed@)),
    {
        self.do_broadcast(freed);
    }

    /// Settles a kill of every cell: a kill always succeeds, so every entry
    /// goes.
    pub fn broadcast_kill(&mut self)
        requires
            old(self).wf(),
        ensures
            final(self).wf(),
            cells_invariant(final(self)@),
            final(self)@ == after_broadcast_kill(old(self)@),
    {
        let killed = self.names();
        self.do_broadcast(&killed);
        assert(self@ =~= Map::<Seq<char>, Cell>::empty());
    }
}

impl Default for Cells {
    fn default() -> (r: Cells)
        ensures
            r.wf(),
            r@ == Map::<Seq<char>, Cell>::empty(),
    {
        Cells::new()
    }
}

/// Every step that allocate and free take keeps the registry's invariants:
/// reconciling with the filesystem, recording an allocated cell under its
/// own name, and dropping an entry.
pub proof fn lemma_steps_keep_invariant(
    m: Map<Seq<char>, Cell>,
    name: Seq<char>,
    cgroup_exists: bool,
    cell: Cell,
)
    requires
        cells_invariant(m),
    ensures
        cells_invariant(reconciled(m, name, cgroup_exists)),
        cells_invariant(m.remove(name)),
        cell.state is Allocated ==> cells_invariant(m.insert(cell.name@, cell)),
{
}

/// A graceful broadcast followed by a kill broadcast leaves the registry
/// empty, whichever cells failed to shut down gracefully.
pub proof fn lemma_shutdown_empties(m: Map<Seq<char>, Cell>, freed: Set<Seq<char>>)
    ensures
        after_broadcast_kill(after_broadcast_free(m, freed)) == Map::<Seq<char>, Cell>::empty(),
{
}

/// Allocating a name that the registry does not hold and then freeing it
/// gives the registry back as it was: the allocation is admitted while no
/// cgroup exists, the allocated cell is recorded, the free is admitted while
/// the cgroup exists, and the shutdown succeeds.
pub proof fn lemma_allocate_then_free(m: Map<Seq<char>, Cell>, cell: Cell)
    requires
        !m.contains_key(cell.name@),
    ensures
        reconciled(reconciled(m, cell.name@, false).insert(cell.name@, cell), cell.name@, true).remove(
            cell.name@,
        ) == m,
{
    assert(reconciled(m, cell.name@, false) =~= m);
    assert(m.insert(cell.name@, cell).remove(cell.name@) =~= m);
}

} // verus!
