//! A table from opaque integer handles to values that keeps its entries in
//! slots, removes by swapping with the last slot, and issues fresh handles
//! from a counter that is independent of insertion.

use fnv::FnvBuildHasher;
use indexmap::IndexSet;
use vstd::prelude::*;

verus! {

/// `indexmap::IndexSet`, an insertion-ordered hash set. Opaque to the
/// verifier: everything known about a value comes from [`slot_handles`].
#[verifier::external_type_specification]
#[verifier::external_body]
#[verifier::reject_recursive_types(T)]
#[verifier::reject_recursive_types(S)]
pub struct ExIndexSet<T, S>(indexmap::IndexSet<T, S>);

/// `fnv::FnvHasher`, the hasher state behind `FnvBuildHasher`.
#[verifier::external_type_specification]
#[verifier::external_body]
pub struct ExFnvHasher(fnv::FnvHasher);

/// `std::hash::BuildHasherDefault`, which builds a hasher from its `Default`.
#[verifier::external_type_specification]
#[verifier::external_body]
#[verifier::reject_recursive_types(H)]
pub struct ExBuildHasherDefault<H>(std::hash::BuildHasherDefault<H>);

/// The handles held by an `IndexSet`, in slot order: element `i` is what
/// `get_index(i)` yields.
pub uninterp spec fn slot_handles(slots: IndexSet<usize, FnvBuildHasher>) -> Seq<usize>;

/// `IndexSet::with_hasher` on a default `FnvBuildHasher`: the new set holds
/// nothing.
#[verifier::external_body]
fn slots_new() -> (slots: IndexSet<usize, FnvBuildHasher>)
    ensures
        slot_handles(slots) == Seq::<usize>::empty(),
{
    IndexSet::with_hasher(FnvBuildHasher::default())
}

/// `IndexSet::len`: the number of slots.
#[verifier::external_body]
fn slots_len(slots: &IndexSet<usize, FnvBuildHasher>) -> (n: usize)
    ensures
        n == slot_handles(*slots).len(),
{
    slots.len()
}

/// `IndexSet::contains`: whether some slot holds `handle`.
#[verifier::external_body]
fn slots_contains(slots: &IndexSet<usize, FnvBuildHasher>, handle: usize) -> (found: bool)
    ensures
        found == slot_handles(*slots).contains(handle),
{
    slots.contains(&handle)
}

/// `IndexSet::get_index_of`: a slot that holds `handle`, or `None` when no
/// slot does.
#[verifier::external_body]
fn slots_index_of(slots: &IndexSet<usize, FnvBuildHasher>, handle: usize) -> (slot: Option<usize>)
    ensures
        match slot {
            Some(i) => i < slot_handles(*slots).len() && slot_handles(*slots)[i as int] == handle,
            None => !slot_handles(*slots).contains(handle),
        },
{
    slots.get_index_of(&handle)
}

/// `IndexSet::get_index`: the handle in slot `i`, or `None` past the end.
#[verifier::external_body]
fn slots_get_index(slots: &IndexSet<usize, FnvBuildHasher>, i: usize) -> (handle: Option<usize>)
    ensures
        handle == (if i < slot_handles(*slots).len() {
            Some(slot_handles(*slots)[i as int])
        } else {
            None
        }),
{
    slots.get_index(i).copied()
}

/// `IndexSet::insert_full`: a handle already present keeps its slot and the
/// set is unchanged; a new handle is appended in a new last slot. Returns the
/// slot and whether the handle was new.
#[verifier::external_body]
fn slots_insert_full(slots: &mut IndexSet<usize, FnvBuildHasher>, handle: usize) -> (r: (usize, bool))
    ensures
        r.1 == !slot_handles(*old(slots)).contains(handle),
        r.1 ==> r.0 == slot_handles(*old(slots)).len() && slot_handles(*final(slots))
            == slot_handles(*old(slots)).push(handle),
        !r.1 ==> r.0 < slot_handles(*old(slots)).len() && slot_handles(*old(slots))[r.0 as int]
            == handle && slot_handles(*final(slots)) == slot_handles(*old(slots)),
{
    slots.insert_full(handle)
}

/// `IndexSet::swap_remove_full`: an absent handle leaves the set unchanged and
/// gives `None`; a present one is removed by moving the last slot's handle
/// into its slot and dropping the last slot, and its former slot is returned
/// with it.
#[verifier::external_body]
fn slots_swap_remove_full(slots: &mut IndexSet<usize, FnvBuildHasher>, handle: usize) -> (r: Option<
    (usize, usize),
>)
    ensures
        match r {
            Some((i, h)) => h == handle && i < slot_handles(*old(slots)).len() && slot_handles(
                *old(slots),
            )[i as int] == handle && slot_handles(*final(slots)) == slot_handles(
                *old(slots),
            ).update(i as int, slot_handles(*old(slots)).last()).drop_last(),
            None => !slot_handles(*old(slots)).contains(handle) && slot_handles(*final(slots))
                == slot_handles(*old(slots)),
        },
{
    slots.swap_remove_full(&handle)
}

/// Whether some entry is stored under `handle`.
pub open spec fn has_handle<T>(entries: Seq<(usize, T)>, handle: usize) -> bool {
    exists|i: int| 0 <= i < entries.len() && (#[trigger] entries[i]).0 == handle
}

/// The slot of the entry stored under `handle`.
pub open spec fn slot_of<T>(entries: Seq<(usize, T)>, handle: usize) -> int {
    choose|i: int| 0 <= i < entries.len() && (#[trigger] entries[i]).0 == handle
}

/// No two entries share a handle.
pub open spec fn distinct_handles<T>(entries: Seq<(usize, T)>) -> bool {
    forall|i: int, j: int|
        0 <= i < j < entries.len() ==> (#[trigger] entries[i]).0 != (#[trigger] entries[j]).0
}

/// Insert-or-update: an entry already stored under `handle` gets the new
/// value in place; otherwise a new entry takes a new last slot.
pub open spec fn upserted<T>(entries: Seq<(usize, T)>, handle: usize, value: T) -> Seq<(usize, T)> {
    if has_handle(entries, handle) {
        entries.update(slot_of(entries, handle), (handle, value))
    } else {
        entries.push((handle, value))
    }
}

/// Swap-with-last removal: the last entry moves into `slot` and the table
/// shrinks by one.
pub open spec fn swap_removed<T>(entries: Seq<(usize, T)>, slot: int) -> Seq<(usize, T)> {
    entries.update(slot, entries.last()).drop_last()
}

/// The handle issued by the `n`-th allocation after the counter stood at
/// `start`; the counter wraps around at `usize::MAX`.
pub open spec fn handle_after(start: usize, n: nat) -> usize {
    ((start + n) % (usize::MAX + 1)) as usize
}

/// The slot of a handle is determined by any slot found to hold it.
pub proof fn lemma_slot_of_unique<T>(entries: Seq<(usize, T)>, handle: usize, slot: int)
    requires
        distinct_handles(entries),
        0 <= slot < entries.len(),
        entries[slot].0 == handle,
    ensures
        has_handle(entries, handle),
        slot_of(entries, handle) == slot,
{
    let chosen = slot_of(entries, handle);
    if chosen < slot {
        assert(entries[chosen].0 != entries[slot].0);
    } else if slot < chosen {
        assert(entries[slot].0 != entries[chosen].0);
    }
}

/// Insert-or-update keeps handles distinct, stores the value under the handle
/// and changes the size only for a new handle.
pub proof fn lemma_upserted<T>(entries: Seq<(usize, T)>, handle: usize, value: T)
    requires
        distinct_handles(entries),
    ensures
        distinct_handles(upserted(entries, handle, value)),
        has_handle(upserted(entries, handle, value), handle),
        upserted(entries, handle, value)[slot_of(upserted(entries, handle, value), handle)] == (
            handle,
            value,
        ),
        upserted(entries, handle, value).len() == entries.len() + (if has_handle(entries, handle) {
            0int
        } else {
            1int
        }),
        forall|other: usize|
            other != handle ==> (has_handle(upserted(entries, handle, value), other) <==> has_handle(
                entries,
                other,
            )),
{
    let after = upserted(entries, handle, value);
    let slot = if has_handle(entries, handle) {
        slot_of(entries, handle)
    } else {
        entries.len() as int
    };
    assert(after[slot] == (handle, value));
    assert forall|i: int, j: int| 0 <= i < j < after.len() implies (#[trigger] after[i]).0 != (
    #[trigger] after[j]).0 by {
        if has_handle(entries, handle) {
            assert(entries[i].0 != entries[j].0);
            if i == slot {
                assert(entries[slot].0 != entries[j].0);
            }
            if j == slot {
                assert(entries[i].0 != entries[slot].0);
            }
        } else {
            if j < entries.len() {
                assert(entries[i].0 != entries[j].0);
            } else {
                assert(entries[i].0 != handle);
            }
        }
    }
    lemma_slot_of_unique(after, handle, slot);
    assert forall|other: usize| other != handle implies (has_handle(after, other) <==> has_handle(
        entries,
        other,
    )) by {
        if has_handle(after, other) {
            let i = slot_of(after, other);
            assert(entries[i].0 == other);
        }
        if has_handle(entries, other) {
            let i = slot_of(entries, other);
            assert(after[i].0 == other);
        }
    }
}

/// Swap-with-last removal of the entry in `slot` keeps handles distinct,
/// shrinks the table by one, removes the handle that was in `slot`, keeps
/// every other handle, and leaves the formerly last entry in `slot`.
pub proof fn lemma_swap_removed<T>(entries: Seq<(usize, T)>, slot: int)
    requires
        distinct_handles(entries),
        0 <= slot < entries.len(),
    ensures
        distinct_handles(swap_removed(entries, slot)),
        swap_removed(entries, slot).len() == entries.len() - 1,
        !has_handle(swap_removed(entries, slot), entries[slot].0),
        slot < entries.len() - 1 ==> swap_removed(entries, slot)[slot] == entries.last(),
        forall|i: int|
            0 <= i < entries.len() - 1 && i != slot ==> #[trigger] swap_removed(entries, slot)[i]
                == entries[i],
        forall|other: usize|
            other != entries[slot].0 ==> (has_handle(swap_removed(entries, slot), other)
                <==> has_handle(entries, other)),
{
    let after = swap_removed(entries, slot);
    let last = entries.len() - 1;
    assert forall|i: int| 0 <= i < after.len() implies (#[trigger] after[i]).0
        != entries[slot].0 by {
        if i == slot {
            assert(entries[slot].0 != entries[last].0);
        } else if i < slot {
            assert(entries[i].0 != entries[slot].0);
        } else {
            assert(entries[slot].0 != entries[i].0);
        }
    }
    assert forall|i: int, j: int| 0 <= i < j < after.len() implies (#[trigger] after[i]).0 != (
    #[trigger] after[j]).0 by {
        let oi = if i == slot { last } else { i };
        let oj = if j == slot { last } else { j };
        assert(after[i] == entries[oi]);
        assert(after[j] == entries[oj]);
        if oi < oj {
            assert(entries[oi].0 != entries[oj].0);
        } else {
            assert(entries[oj].0 != entries[oi].0);
        }
    }
    assert forall|other: usize| other != entries[slot].0 implies (has_handle(after, other)
        <==> has_handle(entries, other)) by {
        if has_handle(after, other) {
            let i = slot_of(after, other);
            let oi = if i == slot { last } else { i };
            assert(entries[oi].0 == other);
        }
        if has_handle(entries, other) {
            let i = slot_of(entries, other);
            let ni = if i == last { slot } else { i };
            assert(after[ni].0 == other);
        }
    }
}

/// A handle that was inserted and then removed is absent: no entry is stored
/// under it, so a lookup finds nothing.
pub proof fn lemma_inserted_then_removed_is_absent<T>(
    entries: Seq<(usize, T)>,
    handle: usize,
    value: T,
)
    requires
        distinct_handles(entries),
    ensures
        has_handle(upserted(entries, handle, value), handle),
        !has_handle(
            swap_removed(
                upserted(entries, handle, value),
                slot_of(upserted(entries, handle, value), handle),
            ),
            handle,
        ),
{
    let inserted = upserted(entries, handle, value);
    lemma_upserted(entries, handle, value);
    lemma_swap_removed(inserted, slot_of(inserted, handle));
}

/// Handles issued by one counter are pairwise distinct: the `i`-th and the
/// `j`-th allocation differ as long as fewer than `usize::MAX + 1`
/// allocations lie between them, that is, until the counter has wrapped.
pub proof fn lemma_allocated_handles_distinct(start: usize, i: nat, j: nat)
    requires
        i < j,
        j - i <= usize::MAX,
    ensures
        handle_after(start, i) != handle_after(start, j),
{
    let m = usize::MAX + 1;
    let a = start + i;
    let b = start + j;
    if a % m == b % m {
        vstd::arithmetic::div_mod::lemma_fundamental_div_mod(a, m);
        vstd::arithmetic::div_mod::lemma_fundamental_div_mod(b, m);
        let qa = a / m;
        let qb = b / m;
        assert(b - a == m * qb - m * qa);
        assert(m * qb - m * qa == m * (qb - qa)) by (nonlinear_arith);
        let d = qb - qa;
        assert(0 < m * d < m);
        assert(false) by (nonlinear_arith)
            requires
                0 < m * d < m,
                m > 0,
        ;
    }
}

/// Allocating `n` times and then once more is allocating `n + 1` times.
pub proof fn lemma_handle_after_step(start: usize, n: nat)
    ensures
        handle_after(start, 0) == start,
        handle_after(handle_after(start, n), 1) == handle_after(start, n + 1),
{
    let m = usize::MAX + 1;
    vstd::arithmetic::div_mod::lemma_small_mod(start as nat, m as nat);
    vstd::arithmetic::div_mod::lemma_add_mod_noop((start + n) as int, 1, m);
    vstd::arithmetic::div_mod::lemma_small_mod(1, m as nat);
    vstd::arithmetic::div_mod::lemma_mod_twice((start + n) as int, m);
    assert(((start + n) % m + 1) % m == (start + n + 1) % m);
}

/// A registry of values of type `T`, each stored under an integer handle.
///
/// Its view is the sequence of `(handle, value)` entries in slot order.
#[derive(Debug)]
pub struct ResourceRegistry<T> {
    slots: IndexSet<usize, FnvBuildHasher>,
    values: Vec<T>,
    current_idx: usize,
}

impl<T> View for ResourceRegistry<T> {
    type V = Seq<(usize, T)>;

    closed spec fn view(&self) -> Seq<(usize, T)> {
        Seq::new(self.values@.len(), |i: int| (slot_handles(self.slots)[i], self.values@[i]))
    }
}

impl<T> ResourceRegistry<T> {
    /// Every slot has exactly one value.
    pub closed spec fn aligned(&self) -> bool {
        slot_handles(self.slots).len() == self.values@.len()
    }

    /// The registry's invariant: slots and values line up and no handle is
    /// stored twice.
    pub open spec fn wf(&self) -> bool {
        self.aligned() && distinct_handles(self@)
    }

    /// The handle that the next allocation returns.
    pub closed spec fn next_handle(&self) -> usize {
        self.current_idx
    }

    proof fn lemma_view(&self)
        requires
            self.aligned(),
        ensures
            self@.len() == self.values@.len(),
            self@.len() == slot_handles(self.slots).len(),
            forall|i: int|
                0 <= i < self@.len() ==> #[trigger] self@[i] == (
                    slot_handles(self.slots)[i],
                    self.values@[i],
                ),
            forall|handle: usize|
                slot_handles(self.slots).contains(handle) <==> has_handle(self@, handle),
    {
        let handles = slot_handles(self.slots);
        assert forall|handle: usize| handles.contains(handle) <==> has_handle(self@, handle) by {
            if handles.contains(handle) {
                let i = choose|i: int| 0 <= i < handles.len() && handles[i] == handle;
                assert(self@[i].0 == handle);
            }
            if has_handle(self@, handle) {
                let i = slot_of(self@, handle);
                assert(handles[i] == handle);
            }
        }
    }

    proof fn lemma_values_changed(&self)
        requires
            self.wf(),
        ensures
            forall|after: Self|
                #![trigger after.view()]
                after.slots == self.slots && after.values@.len() == self.values@.len() ==> {
                    &&& after.wf()
                    &&& after@.len() == self@.len()
                    &&& forall|i: int|
                        0 <= i < after@.len() ==> #[trigger] after@[i] == (
                            self@[i].0,
                            after.values@[i],
                        )
                },
    {
        self.lemma_view();
        assert forall|after: Self|
            #![trigger after.view()]
            after.slots == self.slots && after.values@.len() == self.values@.len() implies {
            &&& after.wf()
            &&& after@.len() == self@.len()
            &&& forall|i: int|
                0 <= i < after@.len() ==> #[trigger] after@[i] == (self@[i].0, after.values@[i])
        } by {
            after.lemma_view();
            assert forall|i: int, j: int| 0 <= i < j < after@.len() implies (
            #[trigger] after@[i]).0 != (#[trigger] after@[j]).0 by {
                assert(self@[i].0 != self@[j].0);
            }
        }
    }

    /// Creates an empty registry whose first allocated handle is 0.
    pub fn new() -> (registry: Self)
        ensures
            registry.wf(),
            registry@ == Seq::<(usize, T)>::empty(),
            registry.next_handle() == 0,
    {
        let registry = ResourceRegistry { slots: slots_new(), values: Vec::new(), current_idx: 0 };
        assert(registry@ =~= Seq::<(usize, T)>::empty());
        registry
    }

    /// Issues a fresh handle: the counter's value, which then advances by one.
    /// The table is untouched.
    pub fn allocate(&mut self) -> (handle: usize)
        ensures
            handle == old(self).next_handle(),
            final(self).next_handle() == handle_after(old(self).next_handle(), 1),
            final(self)@ == old(self)@,
            final(self).wf() == old(self).wf(),
    {
        let handle = self.current_idx;
        self.current_idx = handle.wrapping_add(1);
        proof {
            if handle < usize::MAX {
                vstd::arithmetic::div_mod::lemma_small_mod((handle + 1) as nat, (usize::MAX + 1) as nat);
            } else {
                vstd::arithmetic::div_mod::lemma_mod_self_0(usize::MAX + 1);
            }
        }
        handle
    }

    /// Returns `handle` itself when an entry is stored under it, and a freshly
    /// allocated handle otherwise.
    pub fn allocate_or_reuse(&mut self, handle: usize) -> (result: usize)
        requires
            old(self).wf(),
        ensures
            final(self).wf(),
            final(self)@ == old(self)@,
            has_handle(old(self)@, handle) ==> result == handle && final(self).next_handle() == old(self).next_handle(),
            !has_handle(old(self)@, handle) ==> result == old(self).next_handle() && final(self).next_handle() == handle_after(old(self).next_handle(), 1),
    {
        proof {
            self.lemma_view();
        }
        if slots_contains(&self.slots, handle) {
            handle
        } else {
            self.allocate()
        }
    }

    /// Stores `data` under `handle`, replacing the value of an entry that is
    /// already there. Returns the entry's slot.
    pub fn insert(&mut self, handle: usize, data: T) -> (slot: usize)
        requires
            old(self).wf(),
        ensures
            final(self).wf(),
            final(self)@ == upserted(old(self)@, handle, data),
            has_handle(final(self)@, handle),
            slot == slot_of(final(self)@, handle),
            final(self)@[slot as int] == (handle, data),
            final(self).next_handle() == old(self).next_handle(),
    {
        proof {
            self.lemma_view();
        }
        let (slot, fresh) = slots_insert_full(&mut self.slots, handle);
        if fresh {
            self.values.push(data);
        } else {
            self.values[slot] = data;
            proof {
                lemma_slot_of_unique(old(self)@, handle, slot as int);
            }
        }
        proof {
            self.lemma_view();
            assert(self@ =~= upserted(old(self)@, handle, data));
            lemma_upserted(old(self)@, handle, data);
            lemma_slot_of_unique(self@, handle, slot as int);
        }
        slot
    }

    /// Removes the entry stored under `handle` by swapping it with the last
    /// entry. Returns the slot that the entry occupied, which afterwards holds
    /// the formerly last entry, and the entry's value.
    pub fn remove(&mut self, handle: usize) -> (removed: (usize, T))
        requires
            old(self).wf(),
            has_handle(old(self)@, handle),
        ensures
            final(self).wf(),
            removed.0 == slot_of(old(self)@, handle),
            removed.1 == old(self)@[removed.0 as int].1,
            final(self)@ == swap_removed(old(self)@, removed.0 as int),
            final(self)@.len() == old(self)@.len() - 1,
            !has_handle(final(self)@, handle),
            removed.0 < final(self)@.len() ==> final(self)@[removed.0 as int] == old(self)@.last(),
            final(self).next_handle() == old(self).next_handle(),
    {
        proof {
            self.lemma_view();
        }
        match slots_swap_remove_full(&mut self.slots, handle) {
            Some((slot, _)) => {
                let value = self.values.swap_remove(slot);
                proof {
                    self.lemma_view();
                    lemma_slot_of_unique(old(self)@, handle, slot as int);
                    assert(self@ =~= swap_removed(old(self)@, slot as int));
                    lemma_swap_removed(old(self)@, slot as int);
                }
                (slot, value)
            },
            None => vstd::pervasive::unreached(),
        }
    }

    /// The value stored under `handle`, which must be present.
    pub fn get(&self, handle: usize) -> (value: &T)
        requires
            self.wf(),
            has_handle(self@, handle),
        ensures
            *value == self@[slot_of(self@, handle)].1,
    {
        proof {
            self.lemma_view();
        }
        match slots_index_of(&self.slots, handle) {
            Some(slot) => {
                proof {
                    lemma_slot_of_unique(self@, handle, slot as int);
                }
                &self.values[slot]
            },
            None => vstd::pervasive::unreached(),
        }
    }

    /// The value stored under `handle`, or `None` when there is none.
    pub fn try_get(&self, handle: usize) -> (value: Option<&T>)
        requires
            self.wf(),
        ensures
            value == (if has_handle(self@, handle) {
                Some(&self@[slot_of(self@, handle)].1)
            } else {
                None
            }),
    {
        proof {
            self.lemma_view();
        }
        match slots_index_of(&self.slots, handle) {
            Some(slot) => {
                proof {
                    lemma_slot_of_unique(self@, handle, slot as int);
                }
                Some(&self.values[slot])
            },
            None => None,
        }
    }

    /// The entries in slot order, each as its handle and a reference to its
    /// value.
    pub fn iter(&self) -> (entries: Vec<(usize, &T)>)
        requires
            self.wf(),
        ensures
            entries@.len() == self@.len(),
            forall|i: int|
                0 <= i < entries@.len() ==> (#[trigger] entries@[i]).0 == self@[i].0 && *entries@[i].1
                    == self@[i].1,
    {
        proof {
            self.lemma_view();
        }
        let n = self.values.len();
        let mut entries: Vec<(usize, &T)> = Vec::new();
        let mut i: usize = 0;
        while i < n
            invariant
                self.aligned(),
                n == self@.len(),
                n == self.values@.len(),
                n == slot_handles(self.slots).len(),
                0 <= i <= n,
                entries@.len() == i,
                forall|k: int| 0 <= k < self@.len() ==> #[trigger] self@[k] == (
                    slot_handles(self.slots)[k],
                    self.values@[k],
                ),
                forall|k: int|
                    0 <= k < i ==> (#[trigger] entries@[k]).0 == self@[k].0 && *entries@[k].1
                        == self@[k].1,
            decreases n - i,
        {
            match slots_get_index(&self.slots, i) {
                Some(handle) => {
                    entries.push((handle, &self.values[i]));
                },
                None => {
                    assert(false);
                },
            }
            i = i + 1;
        }
        entries
    }

    /// The values in slot order.
    pub fn values(&self) -> (values: &[T])
        requires
            self.wf(),
        ensures
            values@.len() == self@.len(),
            forall|i: int| 0 <= i < values@.len() ==> #[trigger] values@[i] == self@[i].1,
    {
        proof {
            self.lemma_view();
        }
        self.values.as_slice()
    }

    /// The values in slot order, each open to change. Handles, slots and the
    /// counter stay as they are.
    pub fn values_mut(&mut self) -> (values: &mut [T])
        requires
            old(self).wf(),
        ensures
            values@.len() == old(self)@.len(),
            forall|i: int| 0 <= i < values@.len() ==> #[trigger] values@[i] == old(self)@[i].1,
            final(values)@.len() == values@.len() ==> {
                &&& final(self).wf()
                &&& final(self)@.len() == old(self)@.len()
                &&& forall|i: int|
                    0 <= i < final(self)@.len() ==> #[trigger] final(self)@[i] == (
                        old(self)@[i].0,
                        final(values)@[i],
                    )
            },
            final(self).next_handle() == old(self).next_handle(),
    {
        proof {
            self.lemma_view();
        }
        proof {
            self.lemma_values_changed();
        }
        self.values.as_mut_slice()
    }

    /// The value stored under `handle`, which must be present, open to
    /// change. Nothing else in the registry changes.
    pub fn get_mut(&mut self, handle: usize) -> (value: &mut T)
        requires
            old(self).wf(),
            has_handle(old(self)@, handle),
        ensures
            *value == old(self)@[slot_of(old(self)@, handle)].1,
            final(self).wf(),
            final(self)@ == old(self)@.update(slot_of(old(self)@, handle), (handle, *final(value))),
            final(self).next_handle() == old(self).next_handle(),
    {
        proof {
            self.lemma_view();
        }
        match slots_index_of(&self.slots, handle) {
            Some(slot) => {
                proof {
                    lemma_slot_of_unique(self@, handle, slot as int);
                }
                proof {
                    self.lemma_values_changed();
                }
                &mut self.values[slot]
            },
            None => vstd::pervasive::unreached(),
        }
    }

    /// The slot of the entry stored under `handle`, which must be present.
    pub fn get_index_of(&self, handle: usize) -> (slot: usize)
        requires
            self.wf(),
            has_handle(self@, handle),
        ensures
            slot == slot_of(self@, handle),
    {
        proof {
            self.lemma_view();
        }
        match slots_index_of(&self.slots, handle) {
            Some(slot) => {
                proof {
                    lemma_slot_of_unique(self@, handle, slot as int);
                }
                slot
            },
            None => vstd::pervasive::unreached(),
        }
    }

    /// The number of entries.
    pub fn count(&self) -> (n: usize)
        requires
            self.wf(),
        ensures
            n == self@.len(),
    {
        proof {
            self.lemma_view();
        }
        slots_len(&self.slots)
    }
}

} // verus!
