//! The handle table: every opaque handle handed across the boundary names one
//! cell, and every cell holds one reference to a shared implementation, which
//! lives in the native core or in the foreign runtime. An implementation stays
//! alive while some cell refers to it, and is released when its last cell is
//! freed.
use vstd::prelude::*;

verus! {

/// What a shared reference points to.
#[derive(Debug, PartialEq, Eq, Structural, Clone, Copy)]
pub enum Target {
    /// An implementation in the native core, by instance number.
    Native { instance: u64 },
    /// An implementation owned by the foreign runtime, by the identifier that
    /// runtime handed over.
    Foreign { id: u64 },
}

/// A shared implementation and the number of cells that refer to it.
#[derive(Debug, PartialEq, Eq, Structural, Clone, Copy)]
pub struct Slot {
    pub target: Target,
    pub count: u64,
}

/// Why a handle was refused.
#[derive(Debug, PartialEq, Eq, Structural, Clone, Copy)]
pub enum HandleError {
    /// The handle was never issued by this table, or was already freed.
    InvalidHandle { handle: u64 },
}

/// What freeing a handle did to the implementation behind it.
#[derive(Debug, PartialEq, Eq, Structural, Clone, Copy)]
pub enum FreeOutcome {
    /// Other handles still refer to the implementation.
    Kept,
    /// That was the last reference: the implementation is released. For a
    /// foreign target this is the one release notification owed to the
    /// foreign runtime.
    Released(Target),
}

/// The number of cells in `cells` that refer to slot `s`.
pub open spec fn refs(cells: Seq<Option<usize>>, s: usize) -> nat
    decreases cells.len(),
{
    if cells.len() == 0 {
        0
    } else {
        refs(cells.drop_last(), s) + if cells.last() == Some(s) {
            1nat
        } else {
            0nat
        }
    }
}

proof fn lemma_refs_push(cells: Seq<Option<usize>>, v: Option<usize>, s: usize)
    ensures
        refs(cells.push(v), s) == refs(cells, s) + if v == Some(s) {
            1nat
        } else {
            0nat
        },
{
    assert(cells.push(v).drop_last() =~= cells);
}

proof fn lemma_refs_update(cells: Seq<Option<usize>>, i: int, v: Option<usize>, s: usize)
    requires
        0 <= i < cells.len(),
    ensures
        refs(cells.update(i, v), s) + (if cells[i] == Some(s) {
            1nat
        } else {
            0nat
        }) == refs(cells, s) + (if v == Some(s) {
            1nat
        } else {
            0nat
        }),
    decreases cells.len(),
{
    if i < cells.len() - 1 {
        assert(cells.update(i, v).drop_last() =~= cells.drop_last().update(i, v));
        lemma_refs_update(cells.drop_last(), i, v, s);
    } else {
        assert(cells.update(i, v).drop_last() =~= cells.drop_last());
    }
}

proof fn lemma_refs_le_len(cells: Seq<Option<usize>>, s: usize)
    ensures
        refs(cells, s) <= cells.len(),
    decreases cells.len(),
{
    if cells.len() > 0 {
        lemma_refs_le_len(cells.drop_last(), s);
    }
}

/// A table of opaque handles. Handle `h` names cell `h - 1`, so no handle is
/// zero, and a freed handle is never issued again.
pub struct HandleTable {
    cells: Vec<Option<usize>>,
    slots: Vec<Option<Slot>>,
}

impl HandleTable {
    pub closed spec fn cells(self) -> Seq<Option<usize>> {
        self.cells@
    }

    pub closed spec fn slots(self) -> Seq<Option<Slot>> {
        self.slots@
    }

    /// Every cell refers to a live slot, and every live slot counts exactly
    /// the cells that refer to it.
    pub open spec fn wf(self) -> bool {
        &&& forall|i: int|
            0 <= i < self.cells().len() && #[trigger] self.cells()[i] is Some ==> {
                let s = self.cells()[i]->0;
                &&& s < self.slots().len()
                &&& self.slots()[s as int] is Some
            }
        &&& forall|s: int|
            0 <= s < self.slots().len() ==> {
                &&& (#[trigger] self.slots()[s]) is Some ==> self.slots()[s]->0.count == refs(
                    self.cells(),
                    s as usize,
                ) && self.slots()[s]->0.count > 0
                &&& self.slots()[s] is None ==> refs(self.cells(), s as usize) == 0
            }
        &&& self.cells().len() < u64::MAX
        &&& self.slots().len() < usize::MAX
    }

    /// Whether `h` names a cell that has not been freed.
    pub open spec fn is_live(self, h: u64) -> bool {
        1 <= h <= self.cells().len() && self.cells()[h - 1] is Some
    }

    /// The slot that live handle `h` refers to.
    pub open spec fn slot_index(self, h: u64) -> usize {
        self.cells()[h - 1]->0
    }

    /// The implementation that live handle `h` refers to.
    pub open spec fn target(self, h: u64) -> Target {
        self.slots()[self.slot_index(h) as int]->0.target
    }

    /// How many handles refer to the implementation behind live handle `h`.
    pub open spec fn outstanding(self, h: u64) -> nat {
        self.slots()[self.slot_index(h) as int]->0.count as nat
    }

    /// The handles that were live before stay live, on the same slot.
    pub open spec fn keeps_handles(self, post: HandleTable) -> bool {
        forall|h2: u64| #[trigger]
            self.is_live(h2) ==> post.is_live(h2) && post.slot_index(h2) == self.slot_index(h2)
    }

    /// `post` is `pre` with fresh handle `h` on a new slot holding `t`.
    pub open spec fn lower_step(pre: HandleTable, t: Target, post: HandleTable, h: u64) -> bool {
        &&& h == pre.cells().len() + 1
        &&& post.cells().len() == h
        &&& post.is_live(h)
        &&& post.target(h) == t
        &&& post.outstanding(h) == 1
        &&& post.slot_index(h) == pre.slots().len()
        &&& post.slots().len() == pre.slots().len() + 1
        &&& pre.keeps_handles(post)
        &&& forall|h2: u64| #[trigger] post.is_live(h2) && h2 != h ==> pre.is_live(h2)
        &&& forall|s: int| 0 <= s < pre.slots().len() ==> #[trigger] post.slots()[s] == pre.slots()[s]
    }

    /// `post` is `pre` with fresh handle `h2` on the slot of live handle `h`.
    pub open spec fn clone_step(pre: HandleTable, h: u64, post: HandleTable, h2: u64) -> bool {
        &&& h2 == pre.cells().len() + 1
        &&& post.cells().len() == h2
        &&& post.is_live(h2)
        &&& post.slot_index(h2) == pre.slot_index(h)
        &&& post.target(h2) == pre.target(h)
        &&& post.outstanding(h2) == pre.outstanding(h) + 1
        &&& pre.keeps_handles(post)
        &&& forall|h3: u64| #[trigger] post.is_live(h3) && h3 != h2 ==> pre.is_live(h3)
        &&& post.slots().len() == pre.slots().len()
        &&& forall|s: int|
            0 <= s < pre.slots().len() && s != pre.slot_index(h) ==> #[trigger] post.slots()[s]
                == pre.slots()[s]
    }

    /// `post` is `pre` with live handle `h` freed, and `o` says whether that
    /// released the implementation behind it.
    pub open spec fn free_step(pre: HandleTable, h: u64, post: HandleTable, o: FreeOutcome) -> bool {
        let s = pre.slot_index(h) as int;
        &&& !post.is_live(h)
        &&& post.cells().len() == pre.cells().len()
        &&& forall|h2: u64| #[trigger]
            pre.is_live(h2) && h2 != h ==> post.is_live(h2) && post.slot_index(h2)
                == pre.slot_index(h2)
        &&& forall|h2: u64| #[trigger] post.is_live(h2) ==> pre.is_live(h2)
        &&& post.slots().len() == pre.slots().len()
        &&& forall|s2: int|
            0 <= s2 < pre.slots().len() && s2 != s ==> #[trigger] post.slots()[s2]
                == pre.slots()[s2]
        &&& if pre.outstanding(h) == 1 {
            &&& o == FreeOutcome::Released(pre.target(h))
            &&& post.slots()[s] is None
        } else {
            &&& o == FreeOutcome::Kept
            &&& post.slots()[s] == Some(
                Slot { target: pre.target(h), count: (pre.outstanding(h) - 1) as u64 },
            )
        }
    }

    /// An empty table: no handle is live.
    pub fn new() -> (r: HandleTable)
        ensures
            r.wf(),
            r.cells().len() == 0,
            r.slots().len() == 0,
            forall|h: u64| !r.is_live(h),
    {
        HandleTable { cells: Vec::new(), slots: Vec::new() }
    }

    /// Moves one new reference to `t` into a fresh handle.
    pub fn lower(&mut self, t: Target) -> (h: u64)
        requires
            old(self).wf(),
            old(self).cells().len() + 1 < u64::MAX,
            old(self).slots().len() + 1 < usize::MAX,
        ensures
            final(self).wf(),
            HandleTable::lower_step(*old(self), t, *final(self), h),
    {
        let ghost pre = *self;
        let s = self.slots.len();
        self.slots.push(Some(Slot { target: t, count: 1 }));
        proof {
            lemma_refs_push(pre.cells@, Some(s), s);
            assert forall|s2: usize| s2 != s implies refs(self.cells@.push(Some(s)), s2) == refs(
                pre.cells@,
                s2,
            ) by {
                lemma_refs_push(pre.cells@, Some(s), s2);
            }
            assert(refs(pre.cells@, s) == 0) by {
                if refs(pre.cells@, s) > 0 {
                    assert(exists|i: int|
                        0 <= i < pre.cells@.len() && pre.cells@[i] == Some(s)) by {
                        lemma_refs_exists(pre.cells@, s);
                    }
                }
            }
        }
        self.cells.push(Some(s));
        let h = self.cells.len() as u64;
        proof {
            assert forall|s2: int| 0 <= s2 < self.slots@.len() && #[trigger] self.slots@[s2] is None
                implies refs(self.cells@, s2 as usize) == 0 by {
                lemma_refs_push(pre.cells@, Some(s), s2 as usize);
            }
            assert forall|s2: int| 0 <= s2 < self.slots@.len() && #[trigger] self.slots@[s2] is Some
                implies self.slots@[s2]->0.count == refs(self.cells@, s2 as usize) by {
                lemma_refs_push(pre.cells@, Some(s), s2 as usize);
            }
        }
        h
    }

    /// A new handle on the implementation behind `h`, whose count goes up by
    /// one. Fails, changing nothing, when `h` is not live.
    pub fn clone_handle(&mut self, h: u64) -> (r: Result<u64, HandleError>)
        requires
            old(self).wf(),
            old(self).cells().len() + 1 < u64::MAX,
        ensures
            final(self).wf(),
            old(self).is_live(h) ==> r is Ok && HandleTable::clone_step(
                *old(self),
                h,
                *final(self),
                r->Ok_0,
            ),
            !old(self).is_live(h) ==> r == Err::<u64, HandleError>(
                HandleError::InvalidHandle { handle: h },
            ) && *final(self) == *old(self),
    {
        if h == 0 || h > self.cells.len() as u64 {
            return Err(HandleError::InvalidHandle { handle: h });
        }
        let s = match self.cells[(h - 1) as usize] {
            Some(s) => s,
            None => {
                return Err(HandleError::InvalidHandle { handle: h });
            },
        };
        let ghost pre = *self;
        let slot = self.slots[s].unwrap();
        proof {
            lemma_refs_le_len(pre.cells@, s);
        }
        self.slots[s] = Some(Slot { target: slot.target, count: slot.count + 1 });
        self.cells.push(Some(s));
        let h2 = self.cells.len() as u64;
        proof {
            assert forall|s2: usize|
                #[trigger] refs(self.cells@, s2) == refs(pre.cells@, s2) + if s2 == s {
                1nat
            } else {
                0nat
            } by {
                lemma_refs_push(pre.cells@, Some(s), s2);
            }
            assert forall|i: int|
                0 <= i < self.cells().len() && #[trigger] self.cells()[i] is Some implies {
                let s3 = self.cells()[i]->0;
                &&& s3 < self.slots().len()
                &&& self.slots()[s3 as int] is Some
            } by {
                if i < pre.cells@.len() {
                    assert(pre.cells()[i] == self.cells()[i]);
                }
            }
            assert forall|s2: int| 0 <= s2 < self.slots().len() && (#[trigger] self.slots()[s2]) is Some
                implies self.slots()[s2]->0.count == refs(self.cells(), s2 as usize) by {
                assert(refs(self.cells@, s2 as usize) == refs(pre.cells@, s2 as usize) + if s2 as usize == s {
                1nat
            } else {
                0nat
            });
            }
            assert forall|s2: int| 0 <= s2 < self.slots().len() && (#[trigger] self.slots()[s2]) is None
                implies refs(self.cells(), s2 as usize) == 0 by {
                assert(refs(self.cells@, s2 as usize) == refs(pre.cells@, s2 as usize) + if s2 as usize == s {
                1nat
            } else {
                0nat
            });
            }
        }
        Ok(h2)
    }

    /// Frees handle `h`: its cell goes, and the count of the implementation
    /// behind it goes down by one; at zero the implementation is released.
    /// Fails, changing nothing, when `h` is not live.
    pub fn free_handle(&mut self, h: u64) -> (r: Result<FreeOutcome, HandleError>)
        requires
            old(self).wf(),
        ensures
            final(self).wf(),
            old(self).is_live(h) ==> r is Ok && HandleTable::free_step(
                *old(self),
                h,
                *final(self),
                r->Ok_0,
            ),
            !old(self).is_live(h) ==> r == Err::<FreeOutcome, HandleError>(
                HandleError::InvalidHandle { handle: h },
            ) && *final(self) == *old(self),
    {
        if h == 0 || h > self.cells.len() as u64 {
            return Err(HandleError::InvalidHandle { handle: h });
        }
        let i = (h - 1) as usize;
        let s = match self.cells[i] {
            Some(s) => s,
            None => {
                return Err(HandleError::InvalidHandle { handle: h });
            },
        };
        let ghost pre = *self;
        let slot = self.slots[s].unwrap();
        self.cells[i] = None;
        proof {
            assert(self.cells@ == pre.cells@.update(i as int, None));
        }
        if slot.count == 1 {
            self.slots[s] = None;
            proof {
                self.lemma_free_wf(pre, i, s);
            }
            Ok(FreeOutcome::Released(slot.target))
        } else {
            self.slots[s] = Some(Slot { target: slot.target, count: slot.count - 1 });
            proof {
                self.lemma_free_wf(pre, i, s);
            }
            Ok(FreeOutcome::Kept)
        }
    }

    proof fn lemma_free_wf(self, pre: HandleTable, i: usize, s: usize)
        requires
            pre.wf(),
            0 <= i < pre.cells().len(),
            pre.cells()[i as int] == Some(s),
            self.cells() == pre.cells().update(i as int, None),
            self.slots().len() == pre.slots().len(),
            forall|s2: int| 0 <= s2 < pre.slots().len() && s2 != s ==> #[trigger] self.slots()[s2] == pre.slots()[s2],
            pre.slots()[s as int]->0.count == 1 ==> self.slots()[s as int] is None,
            pre.slots()[s as int]->0.count != 1 ==> self.slots()[s as int] == Some(Slot { target: pre.slots()[s as int]->0.target, count: (pre.slots()[s as int]->0.count - 1) as u64 }),
        ensures
            self.wf(),
    {
        assert forall|s2: usize|
            #[trigger] refs(self.cells(), s2) + (if s2 == s {
            1nat
        } else {
            0nat
        }) == refs(pre.cells(), s2) by {
            lemma_refs_update(pre.cells(), i as int, None, s2);
        }
        assert forall|j: int|
            0 <= j < self.cells().len() && #[trigger] self.cells()[j] is Some implies {
            let s3 = self.cells()[j]->0;
            &&& s3 < self.slots().len()
            &&& self.slots()[s3 as int] is Some
        } by {
            assert(pre.cells()[j] == self.cells()[j]);
            if self.cells()[j] == Some(s) && pre.slots()[s as int]->0.count == 1 {
                lemma_refs_update(self.cells(), j, None, s);
            }
        }
        assert forall|s2: int| 0 <= s2 < self.slots().len() && (#[trigger] self.slots()[s2]) is Some
            implies self.slots()[s2]->0.count == refs(self.cells(), s2 as usize) && self.slots()[s2]->0.count > 0 by {
            assert(refs(self.cells(), s2 as usize) + (if s2 as usize == s { 1nat } else { 0nat }) == refs(pre.cells(), s2 as usize));
        }
        assert forall|s2: int| 0 <= s2 < self.slots().len() && (#[trigger] self.slots()[s2]) is None
            implies refs(self.cells(), s2 as usize) == 0 by {
            assert(refs(self.cells(), s2 as usize) + (if s2 as usize == s { 1nat } else { 0nat }) == refs(pre.cells(), s2 as usize));
        }
    }

    /// The implementation behind handle `h`, borrowed: nothing is counted or
    /// freed.
    pub fn lift(&self, h: u64) -> (r: Result<Target, HandleError>)
        requires
            self.wf(),
        ensures
            self.is_live(h) ==> r == Ok::<Target, HandleError>(self.target(h)),
            !self.is_live(h) ==> r == Err::<Target, HandleError>(
                HandleError::InvalidHandle { handle: h },
            ),
    {
        if h == 0 || h > self.cells.len() as u64 {
            return Err(HandleError::InvalidHandle { handle: h });
        }
        match self.cells[(h - 1) as usize] {
            Some(s) => {
                match self.slots[s] {
                    Some(slot) => Ok(slot.target),
                    None => Err(HandleError::InvalidHandle { handle: h }),
                }
            },
            None => Err(HandleError::InvalidHandle { handle: h }),
        }
    }
}

/// Lowering an implementation and lifting the handle at once gives the same
/// implementation back.
pub proof fn lemma_lower_then_lift(pre: HandleTable, t: Target, post: HandleTable, h: u64)
    requires
        pre.wf(),
        HandleTable::lower_step(pre, t, post, h),
    ensures
        post.is_live(h),
        post.target(h) == t,
{
}

/// After a clone, freeing the original handle keeps the implementation alive
/// for the clone, and freeing the clone afterwards releases it exactly when no
/// other handle was outstanding.
pub proof fn lemma_clone_free_free(
    t0: HandleTable,
    h: u64,
    t1: HandleTable,
    h2: u64,
    t2: HandleTable,
    o1: FreeOutcome,
    t3: HandleTable,
    o2: FreeOutcome,
)
    requires
        t0.wf(),
        t0.is_live(h),
        HandleTable::clone_step(t0, h, t1, h2),
        HandleTable::free_step(t1, h, t2, o1),
        HandleTable::free_step(t2, h2, t3, o2),
    ensures
        o1 == FreeOutcome::Kept,
        t2.is_live(h2),
        t2.target(h2) == t0.target(h),
        o2 == (if t0.outstanding(h) == 1 {
            FreeOutcome::Released(t0.target(h))
        } else {
            FreeOutcome::Kept
        }),
{
    assert(t1.is_live(h));
    assert(t1.slot_index(h) == t0.slot_index(h));
    assert(t2.is_live(h2));
}

/// Cloning a handle and freeing the clone leaves the count behind the handle
/// as it was, and releases nothing.
pub proof fn lemma_clone_free_balance(
    t0: HandleTable,
    h: u64,
    t1: HandleTable,
    h2: u64,
    t2: HandleTable,
    o: FreeOutcome,
)
    requires
        t0.wf(),
        t0.is_live(h),
        HandleTable::clone_step(t0, h, t1, h2),
        HandleTable::free_step(t1, h2, t2, o),
    ensures
        o == FreeOutcome::Kept,
        t2.is_live(h),
        t2.target(h) == t0.target(h),
        t2.outstanding(h) == t0.outstanding(h),
{
    assert(t1.is_live(h));
    assert(t2.is_live(h));
}

/// Freeing a handle releases its implementation exactly when it was the last
/// one outstanding; after a release no live handle refers to that
/// implementation, so no later free can release it again.
pub proof fn lemma_release_once(pre: HandleTable, h: u64, post: HandleTable, o: FreeOutcome)
    requires
        pre.wf(),
        post.wf(),
        pre.is_live(h),
        HandleTable::free_step(pre, h, post, o),
    ensures
        o is Released <==> pre.outstanding(h) == 1,
        o is Released ==> o == FreeOutcome::Released(pre.target(h)),
        o is Released ==> forall|h2: u64| #[trigger]
            post.is_live(h2) ==> post.slot_index(h2) != pre.slot_index(h),
        o is Kept ==> forall|h2: u64| #[trigger]
            post.is_live(h2) && post.slot_index(h2) == pre.slot_index(h) ==> post.outstanding(h2)
                == pre.outstanding(h) - 1,
{
    if o is Released {
        assert forall|h2: u64| #[trigger] post.is_live(h2) implies post.slot_index(h2)
            != pre.slot_index(h) by {
            assert(post.cells()[h2 - 1] is Some);
        }
    }
}

/// The frees in `ts`, `hs`, `os` drop, one by one, references to the
/// implementation behind `hs[0]`.
pub open spec fn frees_of_one(ts: Seq<HandleTable>, hs: Seq<u64>, os: Seq<FreeOutcome>) -> bool {
    &&& hs.len() > 0
    &&& ts.len() == hs.len() + 1
    &&& os.len() == hs.len()
    &&& forall|k: int|
        0 <= k < hs.len() ==> {
            &&& (#[trigger] ts[k]).wf()
            &&& ts[k].is_live(hs[k])
            &&& ts[k].slot_index(hs[k]) == ts[0].slot_index(hs[0])
            &&& HandleTable::free_step(ts[k], hs[k], ts[k + 1], os[k])
        }
}

proof fn lemma_frees_count_down(ts: Seq<HandleTable>, hs: Seq<u64>, os: Seq<FreeOutcome>, k: int)
    requires
        frees_of_one(ts, hs, os),
        ts[0].outstanding(hs[0]) == hs.len(),
        0 <= k < hs.len(),
    ensures
        ts[k].slots()[ts[0].slot_index(hs[0]) as int] == Some(
            Slot { target: ts[0].target(hs[0]), count: (hs.len() - k) as u64 },
        ),
        k < hs.len() - 1 ==> os[k] == FreeOutcome::Kept,
        k == hs.len() - 1 ==> os[k] == FreeOutcome::Released(ts[0].target(hs[0])),
    decreases k,
{
    assert(ts[0].wf());
    if k > 0 {
        lemma_frees_count_down(ts, hs, os, k - 1);
        assert(ts[k - 1].wf());
    }
    assert(ts[k].wf());
}

/// When every reference to one implementation is freed, in any order, exactly
/// the last free releases it, with the target it was lowered with; every free
/// before it keeps it.
pub proof fn lemma_release_exactly_once(ts: Seq<HandleTable>, hs: Seq<u64>, os: Seq<FreeOutcome>)
    requires
        frees_of_one(ts, hs, os),
        ts[0].outstanding(hs[0]) == hs.len(),
    ensures
        forall|k: int| 0 <= k < hs.len() - 1 ==> os[k] == FreeOutcome::Kept,
        os[hs.len() - 1] == FreeOutcome::Released(ts[0].target(hs[0])),
{
    assert forall|k: int| 0 <= k < hs.len() - 1 implies os[k] == FreeOutcome::Kept by {
        lemma_frees_count_down(ts, hs, os, k);
    }
    lemma_frees_count_down(ts, hs, os, hs.len() - 1);
}

proof fn lemma_refs_exists(cells: Seq<Option<usize>>, s: usize)
    requires
        refs(cells, s) > 0,
    ensures
        exists|i: int| 0 <= i < cells.len() && cells[i] == Some(s),
    decreases cells.len(),
{
    if cells.last() == Some(s) {
        assert(cells[cells.len() - 1] == Some(s));
    } else {
        lemma_refs_exists(cells.drop_last(), s);
        let i = choose|i: int| 0 <= i < cells.drop_last().len() && cells.drop_last()[i] == Some(s);
        assert(cells[i] == Some(s));
    }
}

} // verus!
