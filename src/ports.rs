//! The fixed-capacity table of live ports.
use vstd::prelude::*;

use crate::config::UART_NR;
use crate::error::DriverError;
use crate::port::PortDescriptor;

verus! {

/// Contents of a port table: one optional descriptor per slot.
pub type Slots = Seq<Option<PortDescriptor>>;

/// Lowest empty slot at or after `i`.
pub open spec fn first_gap(s: Slots, i: nat) -> Option<nat>
    decreases s.len() - i,
{
    if i >= s.len() {
        None
    } else if s[i as int] is None {
        Some(i)
    } else {
        first_gap(s, i + 1)
    }
}

/// The slot an allocation takes: the lowest empty one, else the next one
/// while the table is below capacity.
pub open spec fn free_slot(s: Slots) -> Option<nat> {
    match first_gap(s, 0) {
        Some(i) => Some(i),
        None => if s.len() < UART_NR {
            Some(s.len())
        } else {
            None
        },
    }
}

/// The table after `d` is stored at `i`, grown with empty slots if needed.
pub open spec fn placed(s: Slots, i: nat, d: PortDescriptor) -> Slots {
    Seq::new(
        if i < s.len() {
            s.len()
        } else {
            i + 1
        },
        |j: int|
            if j == i {
                Some(d)
            } else if j < s.len() {
                s[j]
            } else {
                None
            },
    )
}

/// The table after slot `i` is cleared; no change out of range.
pub open spec fn cleared(s: Slots, i: nat) -> Slots {
    if i < s.len() {
        s.update(i as int, None)
    } else {
        s
    }
}

/// `d` as published in slot `i`.
pub open spec fn at_index(d: PortDescriptor, i: nat) -> PortDescriptor {
    PortDescriptor { index: i as usize, ..d }
}

/// One allocation: the table afterwards and the slot taken, if any.
pub open spec fn allocated(s: Slots, d: PortDescriptor) -> (Slots, Option<nat>) {
    match free_slot(s) {
        Some(i) => (placed(s, i, at_index(d, i)), Some(i)),
        None => (s, None),
    }
}

/// Allocations of `ds` in turn: the table afterwards and the slots taken.
pub open spec fn allocated_all(s: Slots, ds: Seq<PortDescriptor>) -> (Slots, Seq<Option<nat>>)
    decreases ds.len(),
{
    if ds.len() == 0 {
        (s, Seq::empty())
    } else {
        let (s1, r) = allocated(s, ds[0]);
        let (s2, rs) = allocated_all(s1, ds.drop_first());
        (s2, seq![r] + rs)
    }
}

/// Every slot holds a port.
pub open spec fn dense(s: Slots) -> bool {
    forall|i: int| 0 <= i < s.len() ==> #[trigger] s[i] is Some
}

/// Registry of live ports, indexed by port number.
pub struct Ports {
    slots: Vec<Option<PortDescriptor>>,
}

impl View for Ports {
    type V = Slots;

    closed spec fn view(&self) -> Slots {
        self.slots@
    }
}

impl Ports {
    /// The table never grows past `UART_NR` slots.
    pub open spec fn wf(&self) -> bool {
        self@.len() <= UART_NR
    }

    /// An empty table.
    pub fn new() -> (p: Ports)
        ensures
            p.wf(),
            p@ == Seq::<Option<PortDescriptor>>::empty(),
    {
        Ports { slots: Vec::new() }
    }

    /// Number of slots the table has grown to.
    pub fn len(&self) -> (n: usize)
        ensures
            n == self@.len(),
    {
        self.slots.len()
    }

    /// The slot the next allocation takes, or `None` when all `UART_NR` slots
    /// hold a port.
    pub fn find_free_port(&self) -> (r: Option<usize>)
        requires
            self.wf(),
        ensures
            r matches Some(i) ==> free_slot(self@) == Some(i as nat),
            r is None ==> free_slot(self@) is None,
    {
        let n = self.slots.len();
        let mut i: usize = 0;
        while i < n
            invariant
                n == self@.len(),
                i <= n,
                first_gap(self@, 0) == first_gap(self@, i as nat),
            decreases n - i,
        {
            if self.slots[i].is_none() {
                return Some(i);
            }
            i = i + 1;
        }
        if n < UART_NR {
            Some(n)
        } else {
            None
        }
    }

    /// The port at `index`, or `None` for an empty slot or one past the end.
    pub fn get_port(&self, index: usize) -> (r: Option<PortDescriptor>)
        ensures
            r == (if index < self@.len() {
                self@[index as int]
            } else {
                None
            }),
    {
        if index < self.slots.len() {
            self.slots[index]
        } else {
            None
        }
    }

    /// Stores `port` at `index`, growing the table with empty slots up to it.
    /// An index at or past `UART_NR` is refused with `InvalidIndex`.
    pub fn set_port(&mut self, index: usize, port: PortDescriptor) -> (r: Result<(), DriverError>)
        requires
            old(self).wf(),
            index < old(self)@.len() ==> old(self)@[index as int] is None,
        ensures
            final(self).wf(),
            index < UART_NR ==> r is Ok && final(self)@ == placed(old(self)@, index as nat, port),
            index >= UART_NR ==> r == Err::<(), DriverError>(DriverError::InvalidIndex)
                && final(self)@ == old(self)@,
    {
        if index >= UART_NR {
            return Err(DriverError::InvalidIndex);
        }
        let ghost s0 = self@;
        while self.slots.len() <= index
            invariant
                index < UART_NR,
                s0.len() <= self.slots@.len() <= UART_NR,
                self.slots@.len() <= index + 1 || self.slots@.len() == s0.len(),
                forall|j: int| 0 <= j < s0.len() ==> self.slots@[j] == s0[j],
                forall|j: int| s0.len() <= j < self.slots@.len() ==> self.slots@[j] is None,
            decreases index + 1 - self.slots@.len(),
        {
            self.slots.push(None);
        }
        self.slots.set(index, Some(port));
        assert(self@ =~= placed(s0, index as nat, port));
        Ok(())
    }

    /// Clears slot `index`; an empty or out-of-range slot is left as it is.
    pub fn free_port(&mut self, index: usize)
        requires
            old(self).wf(),
        ensures
            final(self).wf(),
            final(self)@ == cleared(old(self)@, index as nat),
    {
        if index < self.slots.len() {
            self.slots.set(index, None);
        }
    }

    /// Takes the slot `find_free_port` names and publishes `port` in it with
    /// its index set, as one step; fails with `NoFreePort` when the table is
    /// full.
    pub fn allocate(&mut self, port: PortDescriptor) -> (r: Result<usize, DriverError>)
        requires
            old(self).wf(),
        ensures
            final(self).wf(),
            final(self)@ == allocated(old(self)@, port).0,
            match r {
                Ok(i) => allocated(old(self)@, port).1 == Some(i as nat),
                Err(e) => e == DriverError::NoFreePort && allocated(old(self)@, port).1 is None,
            },
    {
        match self.find_free_port() {
            None => Err(DriverError::NoFreePort),
            Some(i) => {
                proof {
                    lemma_free_slot_is_empty(self@);
                }
                let r = self.set_port(i, PortDescriptor { index: i, ..port });
                Ok(i)
            },
        }
    }
}

proof fn lemma_first_gap_empty(s: Slots, i: nat)
    ensures
        first_gap(s, i) matches Some(k) ==> i <= k < s.len() && s[k as int] is None,
        first_gap(s, i) is None ==> forall|j: int| i <= j < s.len() ==> s[j] is Some,
        first_gap(s, i) matches Some(k) ==> forall|j: int| i <= j < k ==> s[j] is Some,
    decreases s.len() - i,
{
    if i < s.len() {
        lemma_first_gap_empty(s, i + 1);
    }
}

/// The slot an allocation takes is empty or just past the end, and below
/// capacity.
pub proof fn lemma_free_slot_is_empty(s: Slots)
    requires
        s.len() <= UART_NR,
    ensures
        free_slot(s) matches Some(i) ==> i < UART_NR && (i == s.len() || (i < s.len() && s[i as int] is None)),
        free_slot(s) matches Some(i) ==> forall|j: int| 0 <= j < i && j < s.len() ==> s[j] is Some,
        free_slot(s) is None ==> dense(s) && s.len() >= UART_NR,
{
    lemma_first_gap_empty(s, 0);
}

proof fn lemma_dense_no_gap(s: Slots)
    requires
        dense(s),
    ensures
        first_gap(s, 0) is None,
{
    lemma_first_gap_empty(s, 0);
    if first_gap(s, 0) is Some {
        let k = first_gap(s, 0).unwrap();
        assert(s[k as int] is Some);
    }
}

proof fn lemma_allocate_onto_dense(s: Slots, ds: Seq<PortDescriptor>)
    requires
        dense(s),
        s.len() + ds.len() <= UART_NR,
    ensures
        allocated_all(s, ds).1 == Seq::new(ds.len(), |k: int| Some((s.len() + k) as nat)),
        allocated_all(s, ds).0.len() == s.len() + ds.len(),
        dense(allocated_all(s, ds).0),
        forall|j: int| 0 <= j < s.len() ==> allocated_all(s, ds).0[j] == s[j],
        forall|k: int|
            0 <= k < ds.len() ==> allocated_all(s, ds).0[s.len() + k] == Some(
                at_index(ds[k], (s.len() + k) as nat),
            ),
    decreases ds.len(),
{
    if ds.len() > 0 {
        lemma_dense_no_gap(s);
        let d = at_index(ds[0], s.len());
        let s1 = placed(s, s.len(), d);
        assert(allocated(s, ds[0]) == (s1, Some(s.len())));
        assert(dense(s1));
        lemma_allocate_onto_dense(s1, ds.drop_first());
        let (s2, rs) = allocated_all(s1, ds.drop_first());
        assert(allocated_all(s, ds) == (s2, seq![Some(s.len())] + rs));
        assert(s1[s.len() as int] == Some(d));
        assert forall|j: int| 0 <= j < s.len() implies allocated_all(s, ds).0[j] == s[j] by {
            assert(s2[j] == s1[j]);
        }
        assert(allocated_all(s, ds).1 =~= Seq::new(ds.len(), |k: int| Some((s.len() + k) as nat)));
        assert forall|k: int| 0 <= k < ds.len() implies allocated_all(s, ds).0[s.len() + k] == Some(
            at_index(ds[k], (s.len() + k) as nat),
        ) by {
            if k == 0 {
                assert(s2[s.len() as int] == s1[s.len() as int]);
            } else {
                assert(ds.drop_first()[k - 1] == ds[k]);
                assert(s2[s1.len() + (k - 1)] == Some(at_index(ds[k], (s1.len() + (k - 1)) as nat)));
            }
        }
    } else {
        assert(allocated_all(s, ds).1 =~= Seq::new(ds.len(), |k: int| Some((s.len() + k) as nat)));
    }
}

/// Allocating ports one after another into an empty table, at most
/// `UART_NR` of them, hands out the slots 0, 1, 2, ... in order, each once,
/// and leaves every port in the slot it was given.
pub proof fn lemma_allocation_determinism(ds: Seq<PortDescriptor>)
    requires
        ds.len() <= UART_NR,
    ensures
        allocated_all(Seq::empty(), ds).1 == Seq::new(ds.len(), |k: int| Some(k as nat)),
        allocated_all(Seq::empty(), ds).0.len() == ds.len(),
        forall|k: int|
            0 <= k < ds.len() ==> allocated_all(Seq::empty(), ds).0[k] == Some(
                at_index(ds[k], k as nat),
            ),
{
    let e = Seq::<Option<PortDescriptor>>::empty();
    lemma_allocate_onto_dense(e, ds);
    assert(allocated_all(e, ds).1 =~= Seq::new(ds.len(), |k: int| Some(k as nat)));
    assert forall|k: int| 0 <= k < ds.len() implies allocated_all(e, ds).0[k] == Some(
        at_index(ds[k], k as nat),
    ) by {
        assert(allocated_all(e, ds).0[e.len() + k] == Some(at_index(ds[k], (e.len() + k) as nat)));
    }
}

/// Freeing a live slot and allocating again takes a slot no higher than the
/// one freed, an empty one; in a table without other gaps, exactly the one
/// freed.
pub proof fn lemma_reuse_after_free(s: Slots, k: nat, d: PortDescriptor)
    requires
        s.len() <= UART_NR,
        k < s.len(),
        s[k as int] is Some,
    ensures
        allocated(cleared(s, k), d).1 matches Some(i) && i <= k && cleared(s, k)[i as int] is None,
        dense(s) ==> allocated(cleared(s, k), d).1 == Some(k),
{
    let c = cleared(s, k);
    lemma_first_gap_empty(c, 0);
    lemma_free_slot_is_empty(c);
    assert(c[k as int] is None);
    if dense(s) {
        let i = free_slot(c).unwrap();
        if i < k {
            assert(c[i as int] == s[i as int]);
        }
    }
}

/// A table holding `UART_NR` live ports refuses one more; in particular,
/// after `UART_NR` allocations into an empty table the next one fails and
/// leaves the table as it was.
pub proof fn lemma_exhaustion(ds: Seq<PortDescriptor>, d: PortDescriptor)
    requires
        ds.len() == UART_NR,
    ensures
        allocated(allocated_all(Seq::empty(), ds).0, d).1 is None,
        allocated(allocated_all(Seq::empty(), ds).0, d).0 == allocated_all(Seq::empty(), ds).0,
{
    let e = Seq::<Option<PortDescriptor>>::empty();
    lemma_allocate_onto_dense(e, ds);
    lemma_dense_no_gap(allocated_all(e, ds).0);
}

} // verus!
