//! Slot pools: a fixed number of equal-size slots, named by small integers
//! that an index free list hands out and takes back in constant time.

use vstd::prelude::*;

verus! {

/// What `obtain_resource` returns when no slot is free.
pub const INVALID_INDEX: u32 = 0xffff_ffff;

/// The state of a slot pool as far as handles go.
///
/// `free` lists the indices that can be handed out, the next one first.
/// Releasing puts an index in front, so the index released last is the one
/// obtained next.
pub struct PoolView {
    pub capacity: nat,
    pub resource_size: nat,
    pub free: Seq<u32>,
}

impl PoolView {
    /// A pool in which every slot is free and slot 0 is handed out first.
    pub open spec fn fresh(capacity: nat, resource_size: nat) -> PoolView {
        PoolView { capacity, resource_size, free: Seq::new(capacity, |i: int| i as u32) }
    }

    /// How many slots are handed out.
    pub open spec fn used(self) -> nat {
        (self.capacity - self.free.len()) as nat
    }

    /// The index that the next `obtain_resource` returns: the head of the free
    /// list, or `INVALID_INDEX` when nothing is free.
    pub open spec fn obtained(self) -> u32 {
        if self.free.len() > 0 {
            self.free[0]
        } else {
            INVALID_INDEX
        }
    }

    /// The pool after one `obtain_resource`.
    pub open spec fn after_obtain(self) -> PoolView {
        if self.free.len() > 0 {
            PoolView { free: self.free.drop_first(), ..self }
        } else {
            self
        }
    }

    /// The pool after `release_resource(index)`: the index goes to the front of
    /// the free list, unless no slot is handed out at all.
    pub open spec fn after_release(self, index: u32) -> PoolView {
        if self.used() > 0 {
            PoolView { free: seq![index] + self.free, ..self }
        } else {
            self
        }
    }

    /// The pool after `n` calls of `obtain_resource` in a row.
    pub open spec fn after_obtains(self, n: nat) -> PoolView
        decreases n,
    {
        if n == 0 {
            self
        } else {
            self.after_obtain().after_obtains((n - 1) as nat)
        }
    }

    /// Whether `index` names a slot that is handed out.
    pub open spec fn outstanding(self, index: u32) -> bool {
        index < self.capacity && !self.free.contains(index)
    }

    /// Whether the free list is intact: no more entries than slots, every
    /// entry names a slot, and none occurs twice. Releasing an index that is
    /// not outstanding is what breaks this.
    pub open spec fn sound(self) -> bool {
        &&& self.free.len() <= self.capacity
        &&& self.free.no_duplicates()
        &&& forall|k: int| 0 <= k < self.free.len() ==> (#[trigger] self.free[k]) < self.capacity
    }
}

/// A fresh pool is intact.
pub proof fn lemma_fresh_is_sound(capacity: nat, resource_size: nat)
    requires
        capacity <= u32::MAX,
    ensures
        PoolView::fresh(capacity, resource_size).sound(),
        PoolView::fresh(capacity, resource_size).used() == 0,
{
}

/// Obtaining from an intact pool leaves it intact, and the index handed out
/// names a slot that was free before and is outstanding afterwards.
pub proof fn lemma_obtain_keeps_sound(pool: PoolView)
    requires
        pool.sound(),
        pool.free.len() > 0,
    ensures
        pool.after_obtain().sound(),
        pool.obtained() < pool.capacity,
        !pool.outstanding(pool.obtained()),
        pool.after_obtain().outstanding(pool.obtained()),
        pool.after_obtain().used() == pool.used() + 1,
{
    let rest = pool.free.drop_first();
    assert forall|k: int| 0 <= k < rest.len() implies rest[k] != pool.free[0] by {
        assert(rest[k] == pool.free[k + 1]);
    }
    assert forall|i: int, j: int|
        0 <= i < rest.len() && 0 <= j < rest.len() && i != j implies rest[i] != rest[j] by {
        assert(rest[i] == pool.free[i + 1]);
        assert(rest[j] == pool.free[j + 1]);
    }
    assert forall|k: int| 0 <= k < rest.len() implies (#[trigger] rest[k]) < pool.capacity by {
        assert(rest[k] == pool.free[k + 1]);
    }
}

/// Releasing an outstanding index leaves an intact pool intact.
pub proof fn lemma_release_keeps_sound(pool: PoolView, index: u32)
    requires
        pool.sound(),
        pool.outstanding(index),
    ensures
        pool.after_release(index).sound(),
        !pool.after_release(index).outstanding(index),
        pool.used() > 0,
        pool.after_release(index).used() == pool.used() - 1,
{
    lemma_free_list_has_room(pool, index);
    let free = seq![index] + pool.free;
    assert(pool.after_release(index).free == free);
    assert(free[0] == index);
    assert forall|i: int, j: int|
        0 <= i < free.len() && 0 <= j < free.len() && i != j implies free[i] != free[j] by {
        if i > 0 {
            assert(free[i] == pool.free[i - 1]);
        }
        if j > 0 {
            assert(free[j] == pool.free[j - 1]);
        }
    }
    assert forall|k: int| 0 <= k < free.len() implies (#[trigger] free[k]) < pool.capacity by {
        if k > 0 {
            assert(free[k] == pool.free[k - 1]);
        }
    }
}

/// In an intact pool with an outstanding index, the free list is not full.
proof fn lemma_free_list_has_room(pool: PoolView, index: u32)
    requires
        pool.sound(),
        pool.outstanding(index),
    ensures
        pool.free.len() < pool.capacity,
{
    // The free entries are distinct slot names other than `index`.
    let slots = Set::new(|i: int| 0 <= i < pool.capacity && i != index as int);
    let all = Set::new(|i: int| 0 <= i < pool.capacity);
    vstd::set_lib::lemma_int_range(0, pool.capacity as int);
    assert(all =~= vstd::set_lib::set_int_range(0, pool.capacity as int));
    assert(slots =~= all.remove(index as int));
    let held = pool.free.map_values(|v: u32| v as int);
    assert(held.no_duplicates()) by {
        assert forall|i: int, j: int|
            0 <= i < held.len() && 0 <= j < held.len() && i != j implies held[i] != held[j] by {
            assert(pool.free[i] != pool.free[j]);
        }
    }
    held.unique_seq_to_set();
    assert(held.to_set().subset_of(slots)) by {
        assert forall|v: int| held.to_set().contains(v) implies slots.contains(v) by {
            let k = choose|k: int| 0 <= k < held.len() && held[k] == v;
            assert(pool.free[k] < pool.capacity);
            assert(pool.free.contains(pool.free[k]));
        }
    }
    vstd::set_lib::lemma_len_subset(held.to_set(), slots);
}

/// After `n` obtains the free list has lost its first `n` entries, and the
/// obtain that follows returns entry `n`.
pub proof fn lemma_after_obtains(pool: PoolView, n: nat)
    requires
        n <= pool.free.len(),
    ensures
        pool.after_obtains(n).free == pool.free.skip(n as int),
        pool.after_obtains(n).capacity == pool.capacity,
        pool.after_obtains(n).resource_size == pool.resource_size,
        n < pool.free.len() ==> pool.after_obtains(n).obtained() == pool.free[n as int],
        n == pool.free.len() ==> pool.after_obtains(n).obtained() == INVALID_INDEX,
    decreases n,
{
    if n == 0 {
        assert(pool.free.skip(0) =~= pool.free);
    } else {
        lemma_after_obtains(pool.after_obtain(), (n - 1) as nat);
        assert(pool.free.drop_first().skip(n - 1) =~= pool.free.skip(n as int));
    }
}

/// Obtains that follow one another without a release hand out distinct
/// indices, each of which names a slot: the obtains number `i` and `j` of an
/// intact pool with at least `j + 1` free slots differ, and both lie below the
/// capacity.
pub proof fn lemma_obtains_are_distinct(pool: PoolView, i: nat, j: nat)
    requires
        pool.sound(),
        i < j < pool.free.len(),
    ensures
        pool.after_obtains(i).obtained() != pool.after_obtains(j).obtained(),
        pool.after_obtains(i).obtained() < pool.capacity,
        pool.after_obtains(j).obtained() < pool.capacity,
{
    lemma_after_obtains(pool, i);
    lemma_after_obtains(pool, j);
}

/// A fresh pool hands out 0, 1, 2, ... in this order.
pub proof fn lemma_fresh_obtains_in_order(capacity: nat, resource_size: nat, n: nat)
    requires
        capacity <= u32::MAX,
        n < capacity,
    ensures
        PoolView::fresh(capacity, resource_size).after_obtains(n).obtained() == n,
{
    lemma_after_obtains(PoolView::fresh(capacity, resource_size), n);
}

/// Once every free slot was obtained, the next obtain returns `INVALID_INDEX`,
/// which names no slot, and leaves the pool as it is. For a fresh pool of
/// capacity `C` this is the obtain that follows `C` obtains.
pub proof fn lemma_exhausted_pool_returns_invalid(pool: PoolView)
    requires
        pool.capacity <= u32::MAX,
    ensures
        pool.after_obtains(pool.free.len()).obtained() == INVALID_INDEX,
        !(pool.after_obtains(pool.free.len()).obtained() < pool.capacity),
        pool.after_obtains(pool.free.len()).after_obtain() == pool.after_obtains(pool.free.len()),
        pool.after_obtains(pool.free.len()).used() == pool.capacity,
{
    lemma_after_obtains(pool, pool.free.len());
}

/// The free list is a stack: the index released last is obtained next, before
/// any other free index, and obtaining it puts the pool back as it was.
pub proof fn lemma_release_then_obtain(pool: PoolView, index: u32)
    requires
        pool.used() > 0,
    ensures
        pool.after_release(index).obtained() == index,
        pool.after_release(index).after_obtain() == pool,
{
    let released = pool.after_release(index);
    assert(released.free.drop_first() =~= pool.free);
}

/// A slot that is handed out is not handed out again before it is released:
/// however many obtains follow one another, none of them returns an
/// outstanding index, and the index stays outstanding.
pub proof fn lemma_outstanding_is_not_obtained(pool: PoolView, index: u32, n: nat)
    requires
        pool.capacity <= u32::MAX,
        pool.outstanding(index),
    ensures
        pool.after_obtains(n).obtained() != index,
        pool.after_obtains(n).outstanding(index),
    decreases n,
{
    if n == 0 {
        if pool.free.len() > 0 {
            assert(pool.free.contains(pool.free[0]));
        }
    } else {
        let next = pool.after_obtain();
        assert(next.outstanding(index)) by {
            if next.free.contains(index) {
                let k = choose|k: int| 0 <= k < next.free.len() && next.free[k] == index;
                assert(pool.free[k + 1] == index);
            }
        }
        lemma_outstanding_is_not_obtained(next, index, (n - 1) as nat);
    }
}

/// A fixed number of equal-size slots over one block of bytes, with the free
/// list that names the slots.
pub struct ResourcePool {
    memory: Vec<u8>,
    free_indices: Vec<u32>,
    free_indices_head: u32,
    pool_size: u32,
    resource_size: u32,
    used_indices: u32,
}

impl View for ResourcePool {
    type V = PoolView;

    closed spec fn view(&self) -> PoolView {
        PoolView {
            capacity: self.pool_size as nat,
            resource_size: self.resource_size as nat,
            free: self.free_indices@.subrange(
                self.free_indices_head as int,
                self.pool_size as int,
            ),
        }
    }
}

impl ResourcePool {
    /// What holds of every pool between two calls: the free list has one
    /// place per slot, the count of slots handed out is the number of places
    /// that were popped, and the block has the bytes of all slots.
    pub closed spec fn wf(&self) -> bool {
        &&& self.free_indices@.len() == self.pool_size
        &&& self.free_indices_head <= self.pool_size
        &&& self.used_indices == self.free_indices_head
        &&& self.pool_size * self.resource_size <= u32::MAX
        &&& self.memory@.len() == self.pool_size * self.resource_size
    }

    /// The bytes of all slots, slot 0 first.
    pub closed spec fn memory(&self) -> Seq<u8> {
        self.memory@
    }

    /// In a well-formed pool the free list has at most one entry per slot,
    /// and the block holds `resource_size` bytes for every slot.
    pub proof fn lemma_wf_bounds(&self)
        requires
            self.wf(),
        ensures
            self@.capacity <= u32::MAX,
            self@.free.len() <= self@.capacity,
            self@.used() + self@.free.len() == self@.capacity,
            self.memory().len() == self@.capacity * self@.resource_size,
    {
    }

    /// A pool without slots.
    pub fn new() -> (pool: Self)
        ensures
            pool.wf(),
            pool@ == PoolView::fresh(0, 0),
            pool.memory().len() == 0,
    {
        let pool = ResourcePool {
            memory: Vec::new(),
            free_indices: Vec::new(),
            free_indices_head: 0,
            pool_size: 0,
            resource_size: 0,
            used_indices: 0,
        };
        assert(pool@.free =~= PoolView::fresh(0, 0).free);
        pool
    }

    /// Reserves `pool_size` zeroed slots of `resource_size` bytes each and
    /// makes every slot free, slot 0 to be handed out first.
    pub fn init(&mut self, pool_size: u32, resource_size: u32)
        requires
            pool_size * resource_size <= u32::MAX,
        ensures
            final(self).wf(),
            final(self)@ == PoolView::fresh(pool_size as nat, resource_size as nat),
            final(self).memory() == Seq::new(
                (pool_size * resource_size) as nat,
                |i: int| 0u8,
            ),
    {
        assert(pool_size * resource_size >= 0) by (nonlinear_arith);
        assert(resource_size * pool_size == pool_size * resource_size) by (nonlinear_arith);
        let memory_size: u32 = pool_size * resource_size;
        let memory: Vec<u8> = vec![0u8; memory_size as usize];
        let free_indices: Vec<u32> = seeded_indices(pool_size);
        *self = ResourcePool {
            memory,
            free_indices,
            free_indices_head: 0,
            pool_size,
            resource_size,
            used_indices: 0,
        };
        assert(self@.free =~= PoolView::fresh(pool_size as nat, resource_size as nat).free);
    }

    /// Gives the block and the free list back; what is left is a pool without
    /// slots.
    pub fn shutdown(&mut self)
        ensures
            final(self).wf(),
            final(self)@ == PoolView::fresh(0, 0),
            final(self).memory().len() == 0,
    {
        *self = ResourcePool::new();
    }

    /// Hands out the index at the head of the free list, or `INVALID_INDEX`
    /// when every slot is handed out.
    pub fn obtain_resource(&mut self) -> (index: u32)
        requires
            old(self).wf(),
        ensures
            final(self).wf(),
            index == old(self)@.obtained(),
            final(self)@ == old(self)@.after_obtain(),
            final(self).memory() == old(self).memory(),
    {
        if self.free_indices_head < self.pool_size {
            let index: u32 = self.free_indices[self.free_indices_head as usize];
            self.free_indices_head += 1;
            self.used_indices += 1;
            assert(self@.free =~= old(self)@.free.drop_first());
            index
        } else {
            INVALID_INDEX
        }
    }

    /// Puts `index` back at the head of the free list, unless no slot is
    /// handed out. Whether `index` is outstanding is not looked at: releasing
    /// one that is not leaves a free list that is no longer `sound`.
    pub fn release_resource(&mut self, index: u32)
        requires
            old(self).wf(),
        ensures
            final(self).wf(),
            final(self)@ == old(self)@.after_release(index),
            final(self).memory() == old(self).memory(),
    {
        if self.used_indices > 0 {
            let head: u32 = self.free_indices_head - 1;
            self.free_indices[head as usize] = index;
            self.free_indices_head = head;
            self.used_indices -= 1;
            assert(self@.free =~= seq![index] + old(self)@.free);
        }
    }

    /// Makes every slot free again, slot 0 to be handed out first.
    pub fn free_all_resources(&mut self)
        requires
            old(self).wf(),
        ensures
            final(self).wf(),
            final(self)@ == PoolView::fresh(old(self)@.capacity, old(self)@.resource_size),
            final(self).memory() == old(self).memory(),
    {
        self.free_indices = seeded_indices(self.pool_size);
        self.free_indices_head = 0;
        self.used_indices = 0;
        assert(self@.free =~= PoolView::fresh(old(self)@.capacity, old(self)@.resource_size).free);
    }

    /// Where slot `index` starts in the block.
    pub fn access_resource(&self, index: u32) -> (offset: usize)
        requires
            self.wf(),
            index < self@.capacity,
        ensures
            offset == index * self@.resource_size,
            offset + self@.resource_size <= self.memory().len(),
    {
        proof {
            lemma_slot_in_block(
                index as int,
                self.pool_size as int,
                self.resource_size as int,
            );
        }
        (index * self.resource_size) as usize
    }

    /// The bytes of slot `index`.
    pub fn access_resource_const(&self, index: u32) -> (slot: &[u8])
        requires
            self.wf(),
            index < self@.capacity,
        ensures
            slot@ == self.memory().subrange(
                index * self@.resource_size,
                index * self@.resource_size + self@.resource_size,
            ),
    {
        proof {
            lemma_slot_in_block(
                index as int,
                self.pool_size as int,
                self.resource_size as int,
            );
        }
        let start: usize = (index * self.resource_size) as usize;
        let end: usize = start + self.resource_size as usize;
        vstd::slice::slice_subrange(self.memory.as_slice(), start, end)
    }

    /// The byte at `offset` of the block.
    pub fn read(&self, offset: usize) -> (value: u8)
        requires
            offset < self.memory().len(),
        ensures
            value == self.memory()[offset as int],
    {
        self.memory[offset]
    }

    /// Stores `value` at `offset` of the block; the free list stays.
    pub fn write(&mut self, offset: usize, value: u8)
        requires
            old(self).wf(),
            offset < old(self).memory().len(),
        ensures
            final(self).wf(),
            final(self)@ == old(self)@,
            final(self).memory() == old(self).memory().update(offset as int, value),
    {
        self.memory[offset] = value;
    }

    /// How many slots are handed out.
    pub fn used_indices(&self) -> (used: u32)
        requires
            self.wf(),
        ensures
            used == self@.used(),
    {
        self.used_indices
    }

    /// How many slots the pool has.
    pub fn pool_size(&self) -> (size: u32)
        ensures
            size == self@.capacity,
    {
        self.pool_size
    }

    /// Whether `index` names a slot that is handed out: the test to make
    /// before a release where the index comes from somewhere untrusted.
    pub fn is_outstanding(&self, index: u32) -> (outstanding: bool)
        requires
            self.wf(),
        ensures
            outstanding == self@.outstanding(index),
    {
        if index >= self.pool_size {
            return false;
        }
        let mut i: u32 = self.free_indices_head;
        while i < self.pool_size
            invariant
                self.free_indices@.len() == self.pool_size,
                self.free_indices_head <= i <= self.pool_size,
                forall|k: int|
                    self.free_indices_head <= k < i ==> self.free_indices@[k] != index,
            decreases self.pool_size - i,
        {
            if self.free_indices[i as usize] == index {
                assert(self@.free[i - self.free_indices_head] == index);
                return false;
            }
            i += 1;
        }
        assert forall|k: int| 0 <= k < self@.free.len() implies self@.free[k] != index by {
            assert(self@.free[k] == self.free_indices@[self.free_indices_head + k]);
        }
        true
    }

    /// The indices that are handed out, in ascending order: what is leaked if
    /// the pool is shut down now.
    pub fn outstanding_indices(&self) -> (indices: Vec<u32>)
        requires
            self.wf(),
        ensures
            forall|index: u32| indices@.contains(index) <==> self@.outstanding(index),
            forall|i: int, j: int| 0 <= i < j < indices@.len() ==> indices@[i] < indices@[j],
    {
        let mut indices: Vec<u32> = Vec::new();
        let mut index: u32 = 0;
        while index < self.pool_size
            invariant
                self.wf(),
                index <= self.pool_size,
                self.pool_size == self@.capacity,
                forall|v: u32| indices@.contains(v) <==> v < index && self@.outstanding(v),
                forall|i: int, j: int| 0 <= i < j < indices@.len() ==> indices@[i] < indices@[j],
            decreases self.pool_size - index,
        {
            if self.is_outstanding(index) {
                let ghost before = indices@;
                indices.push(index);
                assert(indices@[before.len() as int] == index);
                assert forall|v: u32| indices@.contains(v) <==> v < index + 1 && self@.outstanding(
                    v,
                ) by {
                    if indices@.contains(v) {
                        let k = choose|k: int| 0 <= k < indices@.len() && indices@[k] == v;
                        if k < before.len() {
                            assert(before[k] == v);
                            assert(before.contains(v));
                        }
                    }
                    if v < index && self@.outstanding(v) {
                        assert(before.contains(v));
                        let k = choose|k: int| 0 <= k < before.len() && before[k] == v;
                        assert(indices@[k] == v);
                    }
                }
                assert forall|i: int, j: int| 0 <= i < j < indices@.len() implies indices@[i]
                    < indices@[j] by {
                    if j == before.len() {
                        assert(before[i] == indices@[i]);
                        assert(before.contains(indices@[i]));
                    } else {
                        assert(before[i] == indices@[i]);
                        assert(before[j] == indices@[j]);
                    }
                }
            }
            index += 1;
        }
        indices
    }
}

/// Slot `index` of `pool_size` slots of `resource_size` bytes lies inside the
/// block of `pool_size * resource_size` bytes.
proof fn lemma_slot_in_block(index: int, pool_size: int, resource_size: int)
    requires
        0 <= index < pool_size,
        0 <= resource_size,
    ensures
        0 <= index * resource_size,
        index * resource_size + resource_size <= pool_size * resource_size,
{
    assert(0 <= index * resource_size) by (nonlinear_arith)
        requires
            0 <= index,
            0 <= resource_size,
    ;
    assert(index * resource_size + resource_size <= pool_size * resource_size) by (nonlinear_arith)
        requires
            index + 1 <= pool_size,
            0 <= resource_size,
    ;
}

/// The free list of a pool in which every slot is free: 0, 1, 2, ...
fn seeded_indices(pool_size: u32) -> (indices: Vec<u32>)
    ensures
        indices@ == Seq::new(pool_size as nat, |i: int| i as u32),
{
    let mut indices: Vec<u32> = Vec::new();
    let mut i: u32 = 0;
    while i < pool_size
        invariant
            i <= pool_size,
            indices@ == Seq::new(i as nat, |k: int| k as u32),
        decreases pool_size - i,
    {
        indices.push(i);
        i += 1;
        assert(indices@ =~= Seq::new(i as nat, |k: int| k as u32));
    }
    indices
}

/// What a record must offer to live in a typed pool: a name for diagnostics
/// and a place that remembers which slot the record lives in. The pool writes
/// that place when it hands the record out and reads it when the record is
/// released.
pub trait Resource {
    /// The name that `get_name` returns. An implementation that is to be
    /// verified says here what that is.
    open spec fn name(&self) -> Seq<char> {
        arbitrary()
    }

    /// The slot index that the record holds. An implementation that is to be
    /// verified says here what that is.
    open spec fn pool_index(&self) -> u32 {
        arbitrary()
    }

    fn get_name(&self) -> (name: &str)
        ensures
            name@ == self.name(),
    ;

    fn get_pool_index(&self) -> (index: u32)
        ensures
            index == self.pool_index(),
    ;

    /// Stores `index` as the slot the record lives in.
    fn set_pool_index(&mut self, index: u32) -> (result: u32)
        ensures
            final(self).pool_index() == index,
    ;
}

/// A slot that was still handed out when its pool was shut down.
pub struct LeakedResource {
    pub index: u32,
    pub name: String,
}

/// A slot pool whose slots hold records of type `T`.
///
/// The pool owns the records; a record only knows in which slot it lives. The
/// pool underneath reserves the bytes of the slots as every pool does, with
/// the size of `T` as the size of a slot.
pub struct ResourcePoolTyped<T: Resource> {
    pool: ResourcePool,
    records: Vec<T>,
}

impl<T: Resource> ResourcePoolTyped<T> {
    /// What holds of every typed pool between two calls: there is one record
    /// per slot, and every entry of the free list names a slot.
    pub closed spec fn wf(&self) -> bool {
        &&& self.pool.wf()
        &&& self.records@.len() == self.pool@.capacity
        &&& forall|k: int|
            0 <= k < self.pool@.free.len() ==> (#[trigger] self.pool@.free[k]) < self.pool@.capacity
    }

    /// The slots and their free list.
    pub closed spec fn slots(&self) -> PoolView {
        self.pool@
    }

    /// The records, by slot.
    pub closed spec fn records(&self) -> Seq<T> {
        self.records@
    }

    /// A well-formed typed pool has one record per slot, and every entry of
    /// its free list names a slot.
    pub proof fn lemma_wf_bounds(&self)
        requires
            self.wf(),
        ensures
            self.records().len() == self.slots().capacity,
            self.slots().free.len() <= self.slots().capacity,
            forall|k: int|
                0 <= k < self.slots().free.len() ==> (#[trigger] self.slots().free[k])
                    < self.slots().capacity,
    {
        self.pool.lemma_wf_bounds();
    }

    /// A typed pool without slots.
    pub fn new() -> (pool: Self)
        ensures
            pool.wf(),
            pool.slots() == PoolView::fresh(0, 0),
            pool.records().len() == 0,
    {
        ResourcePoolTyped { pool: ResourcePool::new(), records: Vec::new() }
    }

    /// Reserves `pool_size` slots of the size of `T`, each holding a default
    /// record, and makes every slot free.
    pub fn init(&mut self, pool_size: u32) where T: Default
        requires
            pool_size * vstd::layout::size_of::<T>() <= u32::MAX,
            vstd::layout::size_of::<T>() <= u32::MAX,
        ensures
            final(self).wf(),
            final(self).slots() == PoolView::fresh(
                pool_size as nat,
                vstd::layout::size_of::<T>(),
            ),
            final(self).records().len() == pool_size,
    {
        let resource_size: usize = core::mem::size_of::<T>();
        let mut pool = ResourcePool::new();
        pool.init(pool_size, resource_size as u32);
        let mut records: Vec<T> = Vec::new();
        let mut i: u32 = 0;
        while i < pool_size
            invariant
                i <= pool_size,
                records@.len() == i,
            decreases pool_size - i,
        {
            records.push(T::default());
            i += 1;
        }
        *self = ResourcePoolTyped { pool, records };
    }

    /// Lists the slots that are still handed out, each with the name of its
    /// record, in ascending order of the index, and gives all memory back
    /// whether or not anything leaked. What is left is a pool without slots.
    pub fn shutdown(&mut self) -> (leaked: Vec<LeakedResource>)
        requires
            old(self).wf(),
        ensures
            final(self).wf(),
            final(self).slots() == PoolView::fresh(0, 0),
            final(self).records().len() == 0,
            forall|index: u32|
                old(self).slots().outstanding(index) <==> exists|k: int|
                    0 <= k < leaked@.len() && (#[trigger] leaked@[k]).index == index,
            forall|i: int, j: int|
                0 <= i < j < leaked@.len() ==> leaked@[i].index < leaked@[j].index,
            forall|k: int|
                0 <= k < leaked@.len() ==> (#[trigger] leaked@[k]).index < old(self).records().len()
                    && leaked@[k].name@ == old(self).records()[leaked@[k].index as int].name(),
    {
        let mut leaked: Vec<LeakedResource> = Vec::new();
        let indices: Vec<u32> = self.pool.outstanding_indices();
        let mut k: usize = 0;
        while k < indices.len()
            invariant
                self.wf(),
                *self == *old(self),
                k <= indices@.len(),
                leaked@.len() == k,
                forall|index: u32| indices@.contains(index) <==> self.pool@.outstanding(index),
                forall|i: int| 0 <= i < k ==> (#[trigger] leaked@[i]).index == indices@[i],
                forall|i: int|
                    0 <= i < k ==> (#[trigger] leaked@[i]).name@
                        == self.records@[indices@[i] as int].name(),
            decreases indices@.len() - k,
        {
            let index: u32 = indices[k];
            assert(indices@.contains(index));
            let name: String = self.records[index as usize].get_name().to_owned();
            leaked.push(LeakedResource { index, name });
            k += 1;
        }
        assert forall|index: u32| old(self).slots().outstanding(index) implies exists|k: int|
            0 <= k < leaked@.len() && (#[trigger] leaked@[k]).index == index by {
            assert(indices@.contains(index));
            let k = choose|k: int| 0 <= k < indices@.len() && indices@[k] == index;
            assert(leaked@[k].index == index);
        }
        assert forall|index: u32|
            (exists|k: int|
                0 <= k < leaked@.len() && (#[trigger] leaked@[k]).index
                    == index) implies old(self).slots().outstanding(index) by {
            let k = choose|k: int| 0 <= k < leaked@.len() && (#[trigger] leaked@[k]).index == index;
            assert(indices@[k] == index);
            assert(indices@.contains(index));
        }
        assert forall|k: int| 0 <= k < leaked@.len() implies (#[trigger] leaked@[k]).index < old(
            self,
        ).records().len() by {
            assert(indices@.contains(indices@[k]));
        }
        self.pool.shutdown();
        self.records = Vec::new();
        leaked
    }

    /// Hands out a free slot: stores the slot's index in the record that lives
    /// there and returns the record. Returns `None`, and changes nothing, when
    /// every slot is handed out.
    pub fn obtain(&mut self) -> (resource: Option<&mut T>)
        requires
            old(self).wf(),
        ensures
            final(self).wf(),
            final(self).slots() == old(self).slots().after_obtain(),
            resource is None <==> old(self).slots().free.len() == 0,
            resource is None ==> final(self).records() == old(self).records(),
            resource matches Some(record) ==> {
                &&& record.pool_index() == old(self).slots().obtained()
                &&& old(self).slots().obtained() < old(self).slots().capacity
                &&& final(self).records() == old(self).records().update(
                    old(self).slots().obtained() as int,
                    *final(record),
                )
            },
    {
        let ghost before = self.pool@;
        let resource_index: u32 = self.pool.obtain_resource();
        if resource_index != INVALID_INDEX {
            proof {
                assert(before.free.len() > 0);
                assert(before.free[0] < before.capacity);
                assert forall|k: int| 0 <= k < self.pool@.free.len() implies (
                #[trigger] self.pool@.free[k]) < self.pool@.capacity by {
                    assert(self.pool@.free[k] == before.free[k + 1]);
                }
            }
            let resource = &mut self.records[resource_index as usize];
            resource.set_pool_index(resource_index);
            Some(resource)
        } else {
            proof {
                if before.free.len() > 0 {
                    assert(before.free[0] < before.capacity);
                }
            }
            None
        }
    }

    /// Releases the slot that the record in slot `resource` names as its own.
    /// An index that names no slot is not passed on to the free list;
    /// otherwise the release is that of the untyped pool.
    pub fn release(&mut self, resource: u32)
        requires
            old(self).wf(),
            resource < old(self).slots().capacity,
        ensures
            final(self).wf(),
            final(self).records() == old(self).records(),
            final(self).slots() == if old(self).records()[resource as int].pool_index() < old(
                self,
            ).slots().capacity {
                old(self).slots().after_release(old(self).records()[resource as int].pool_index())
            } else {
                old(self).slots()
            },
    {
        let index: u32 = self.records[resource as usize].get_pool_index();
        if index < self.pool.pool_size() {
            let ghost before = self.pool@;
            self.pool.release_resource(index);
            proof {
                assert forall|k: int| 0 <= k < self.pool@.free.len() implies (
                #[trigger] self.pool@.free[k]) < self.pool@.capacity by {
                    if before.used() > 0 && k > 0 {
                        assert(self.pool@.free[k] == before.free[k - 1]);
                    }
                }
            }
        }
    }

    /// The record in slot `index`, to be changed in place.
    pub fn get(&mut self, index: u32) -> (resource: &mut T)
        requires
            old(self).wf(),
            index < old(self).slots().capacity,
        ensures
            *resource == old(self).records()[index as int],
            final(self).wf(),
            final(self).slots() == old(self).slots(),
            final(self).records() == old(self).records().update(index as int, *final(resource)),
    {
        &mut self.records[index as usize]
    }

    /// The record in slot `index`.
    pub fn get_const(&self, index: u32) -> (resource: &T)
        requires
            self.wf(),
            index < self.slots().capacity,
        ensures
            *resource == self.records()[index as int],
    {
        &self.records[index as usize]
    }
}

} // verus!
