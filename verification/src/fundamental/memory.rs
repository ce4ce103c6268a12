//! Byte arenas: allocation strategies over one owned block of memory.
//!
//! An arena hands out byte offsets into the block it owns. A request that does
//! not fit is a sizing error of the configuration, so the allocating functions
//! rule it out in their preconditions; the `fits` predicates let a caller that
//! cannot prove the bound test it first.

use vstd::prelude::*;

verus! {

/// The least multiple of `alignment` that is not below `size`.
pub open spec fn aligned_up(size: nat, alignment: nat) -> nat
    recommends
        alignment > 0,
{
    if size % alignment == 0 {
        size
    } else {
        (size / alignment + 1) * alignment
    }
}

/// The greatest multiple of `alignment` that is not above `size`.
pub open spec fn aligned_down(size: nat, alignment: nat) -> nat
    recommends
        alignment > 0,
{
    (size - size % alignment) as nat
}

/// `aligned_up(size, alignment)` is a multiple of `alignment`, is at least
/// `size`, and lies less than one `alignment` above it.
pub proof fn lemma_aligned_up(size: nat, alignment: nat)
    requires
        alignment > 0,
    ensures
        aligned_up(size, alignment) % alignment == 0,
        size <= aligned_up(size, alignment) < size + alignment,
{
    let s = size as int;
    let d = alignment as int;
    let q = s / d;
    let a = aligned_up(size, alignment) as int;
    assert(s == d * q + s % d && 0 <= s % d < d) by {
        vstd::arithmetic::div_mod::lemma_fundamental_div_mod(s, d);
        vstd::arithmetic::div_mod::lemma_mod_bound(s, d);
    }
    if s % d != 0 {
        assert((q + 1) * d == d * q + d) by (nonlinear_arith);
        assert(a == (q + 1) * d);
        vstd::arithmetic::div_mod::lemma_mod_multiples_basic(q + 1, d);
    }
    assert(a % d == 0);
}

/// No multiple of `alignment` lies between `size` and `aligned_up(size, alignment)`.
pub proof fn lemma_aligned_up_least(size: nat, alignment: nat, m: nat)
    requires
        alignment > 0,
        m % alignment == 0,
        size <= m,
    ensures
        aligned_up(size, alignment) <= m,
{
    lemma_aligned_up(size, alignment);
    let d = alignment as int;
    let a = aligned_up(size, alignment) as int;
    let mi = m as int;
    if mi < a {
        vstd::arithmetic::div_mod::lemma_fundamental_div_mod(mi, d);
        vstd::arithmetic::div_mod::lemma_fundamental_div_mod(a, d);
        assert(a - mi == d * (a / d - mi / d)) by (nonlinear_arith)
            requires
                a == d * (a / d),
                mi == d * (mi / d),
        ;
        assert(false) by (nonlinear_arith)
            requires
                a - mi == d * (a / d - mi / d),
                0 < a - mi < d,
        ;
    }
}

/// `aligned_down(size, alignment)` is a multiple of `alignment`, is at most
/// `size`, and lies less than one `alignment` below it.
pub proof fn lemma_aligned_down(size: nat, alignment: nat)
    requires
        alignment > 0,
    ensures
        aligned_down(size, alignment) % alignment == 0,
        size - alignment < aligned_down(size, alignment) <= size,
        size % alignment <= size,
{
    let s = size as int;
    let d = alignment as int;
    vstd::arithmetic::div_mod::lemma_fundamental_div_mod(s, d);
    vstd::arithmetic::div_mod::lemma_mod_bound(s, d);
    assert(s - s % d == (s / d) * d) by (nonlinear_arith)
        requires
            s == d * (s / d) + s % d,
    ;
    vstd::arithmetic::div_mod::lemma_mod_multiples_basic(s / d, d);
}

/// Rounds `size` up to the next multiple of `alignment`.
#[inline]
pub fn memory_align(size: usize, alignment: usize) -> (aligned: usize)
    requires
        alignment > 0,
        aligned_up(size as nat, alignment as nat) <= usize::MAX,
    ensures
        aligned == aligned_up(size as nat, alignment as nat),
        aligned % alignment == 0,
        size <= aligned < size + alignment,
{
    proof {
        lemma_aligned_up(size as nat, alignment as nat);
    }
    if size % alignment == 0 {
        size
    } else {
        (size / alignment + 1) * alignment
    }
}

/// The padding that takes `size` to `aligned_up(size, alignment)`.
pub proof fn lemma_aligned_up_padding(size: nat, alignment: nat)
    requires
        alignment > 0,
    ensures
        size % alignment == 0 ==> aligned_up(size, alignment) == size,
        size % alignment != 0 ==> aligned_up(size, alignment) == size + alignment - size
            % alignment,
{
    let s = size as int;
    let d = alignment as int;
    vstd::arithmetic::div_mod::lemma_fundamental_div_mod(s, d);
    assert((s / d + 1) * d == d * (s / d) + d) by (nonlinear_arith);
}

/// The common contract of the arenas: `allocate` reserves `size` bytes and
/// returns where they start; a request that does not fit is never made.
pub trait Allocator {
    /// Whether a request for `size` bytes at `alignment` can be served.
    spec fn fits(&self, size: usize, alignment: usize) -> bool;

    fn allocate(&mut self, size: usize, alignment: usize) -> (pointer: usize)
        requires
            old(self).fits(size, alignment),
    ;

    fn deallocate(&mut self, pointer: usize)
    ;
}

/// A forward-only bump arena: one cursor that only `clear` moves back.
pub struct LinearAllocator {
    memory: Vec<u8>,
    total_size: usize,
    allocated_size: usize,
}

impl LinearAllocator {
    #[verifier::type_invariant]
    spec fn inv(&self) -> bool {
        &&& self.allocated_size <= self.total_size
        &&& (self.memory@.len() == 0 || self.memory@.len() == self.total_size)
    }

    /// The number of bytes the arena manages.
    pub closed spec fn capacity(&self) -> nat {
        self.total_size as nat
    }

    /// The offset below which every byte is handed out.
    pub closed spec fn cursor(&self) -> nat {
        self.allocated_size as nat
    }

    /// The block that backs the offsets; empty until `init` reserves it.
    pub closed spec fn block(&self) -> Seq<u8> {
        self.memory@
    }

    pub fn new() -> (arena: Self)
        ensures
            arena.capacity() == 0,
            arena.cursor() == 0,
            arena.block().len() == 0,
    {
        LinearAllocator { memory: Vec::new(), total_size: 0, allocated_size: 0 }
    }

    /// Reserves a zeroed block of `size` bytes and starts at offset 0.
    pub fn init(&mut self, size: usize)
        ensures
            final(self).capacity() == size,
            final(self).cursor() == 0,
            final(self).block() == Seq::new(size as nat, |i: int| 0u8),
    {
        let memory: Vec<u8> = vec![0u8; size];
        *self = LinearAllocator { memory, total_size: size, allocated_size: 0 };
    }

    /// Gives the block back; the arena is as after `new`.
    pub fn shutdown(&mut self)
        ensures
            final(self).capacity() == 0,
            final(self).cursor() == 0,
            final(self).block().len() == 0,
    {
        *self = LinearAllocator { memory: Vec::new(), total_size: 0, allocated_size: 0 };
    }

    /// Whether `allocate(size, alignment)` may be called.
    pub fn can_allocate(&self, size: usize, alignment: usize) -> (b: bool)
        ensures
            b == self.fits(size, alignment),
    {
        proof {
            use_type_invariant(self);
        }
        bump_fits(self.allocated_size, self.total_size, size, alignment)
    }

    /// Aligns the cursor upward, reserves `size` bytes from there and returns
    /// the offset at which they start.
    pub fn allocate(&mut self, size: usize, alignment: usize) -> (offset: usize)
        requires
            old(self).fits(size, alignment),
        ensures
            offset == aligned_up(old(self).cursor(), alignment as nat),
            offset % alignment == 0,
            old(self).cursor() <= offset,
            final(self).cursor() == cursor_after_allocate(
                old(self).cursor(),
                size as nat,
                alignment as nat,
            ),
            final(self).cursor() == offset + size,
            final(self).cursor() <= final(self).capacity(),
            final(self).capacity() == old(self).capacity(),
            final(self).block() == old(self).block(),
    {
        proof {
            use_type_invariant(&*self);
        }
        let new_start: usize = memory_align(self.allocated_size, alignment);
        let new_allocated_size: usize = new_start + size;
        self.allocated_size = new_allocated_size;
        new_start
    }

    /// Bump arenas free in bulk only: this changes nothing.
    pub fn deallocate(&mut self, _pointer: usize)
        ensures
            *final(self) == *old(self),
    {
    }

    /// The byte at `offset` of the block.
    pub fn read(&self, offset: usize) -> (value: u8)
        requires
            offset < self.block().len(),
        ensures
            value == self.block()[offset as int],
    {
        self.memory[offset]
    }

    /// Stores `value` at `offset` of the block; the cursors stay.
    pub fn write(&mut self, offset: usize, value: u8)
        requires
            offset < old(self).block().len(),
        ensures
            final(self).block() == old(self).block().update(offset as int, value),
            final(self).capacity() == old(self).capacity(),
            final(self).cursor() == old(self).cursor(),
    {
        proof {
            use_type_invariant(&*self);
        }
        self.memory[offset] = value;
    }

    /// Moves the cursor back to 0; every earlier allocation is void.
    pub fn clear(&mut self)
        ensures
            final(self).cursor() == 0,
            final(self).capacity() == old(self).capacity(),
            final(self).block() == old(self).block(),
    {
        proof {
            use_type_invariant(&*self);
        }
        self.allocated_size = 0;
    }
}

/// Where the cursor of a bump arena stands after it served `size` bytes at
/// `alignment` from `cursor`.
pub open spec fn cursor_after_allocate(cursor: nat, size: nat, alignment: nat) -> nat {
    aligned_up(cursor, alignment) + size
}

/// Where a cursor stands after a marker was restored: at the marker if that
/// lies at or behind the cursor, else where it was.
pub open spec fn cursor_after_free_marker(cursor: nat, marker: nat) -> nat {
    if marker <= cursor {
        marker
    } else {
        cursor
    }
}

/// Whether `size` bytes at `alignment` fit between `cursor` and `capacity`.
pub open spec fn bump_fits_spec(cursor: nat, capacity: nat, size: nat, alignment: nat) -> bool {
    alignment > 0 && cursor_after_allocate(cursor, size, alignment) <= capacity
}

/// Decides `bump_fits_spec` without leaving the range of `usize`.
pub fn bump_fits(cursor: usize, capacity: usize, size: usize, alignment: usize) -> (b: bool)
    requires
        cursor <= capacity,
    ensures
        b == bump_fits_spec(cursor as nat, capacity as nat, size as nat, alignment as nat),
{
    if alignment == 0 {
        return false;
    }
    proof {
        lemma_aligned_up_padding(cursor as nat, alignment as nat);
    }
    let rest: usize = cursor % alignment;
    let padding: usize = if rest == 0 {
        0
    } else {
        alignment - rest
    };
    let free: usize = capacity - cursor;
    padding <= free && size <= free - padding
}

impl Allocator for LinearAllocator {
    open spec fn fits(&self, size: usize, alignment: usize) -> bool {
        bump_fits_spec(self.cursor(), self.capacity(), size as nat, alignment as nat)
    }

    fn allocate(&mut self, size: usize, alignment: usize) -> (pointer: usize)
        ensures
            pointer == aligned_up(old(self).cursor(), alignment as nat),
            final(self).cursor() == pointer + size,
            final(self).capacity() == old(self).capacity(),
            final(self).block() == old(self).block(),
    {
        LinearAllocator::allocate(self, size, alignment)
    }

    fn deallocate(&mut self, pointer: usize)
        ensures
            *final(self) == *old(self),
    {
    }
}

/// A bump arena whose cursor can be rolled back to a marker taken earlier.
///
/// Markers are meant to be restored in the reverse order of their taking; the
/// arena does not check that.
pub struct StackAllocator {
    memory: Vec<u8>,
    total_size: usize,
    allocated_size: usize,
}

impl StackAllocator {
    #[verifier::type_invariant]
    spec fn inv(&self) -> bool {
        &&& self.allocated_size <= self.total_size
        &&& (self.memory@.len() == 0 || self.memory@.len() == self.total_size)
    }

    /// The number of bytes the arena manages.
    pub closed spec fn capacity(&self) -> nat {
        self.total_size as nat
    }

    /// The offset below which every byte is handed out.
    pub closed spec fn cursor(&self) -> nat {
        self.allocated_size as nat
    }

    /// The block that backs the offsets; empty until `init` reserves it.
    pub closed spec fn block(&self) -> Seq<u8> {
        self.memory@
    }

    /// An arena of `size` bytes whose block is not reserved yet.
    pub fn new(size: usize) -> (arena: Self)
        ensures
            arena.capacity() == size,
            arena.cursor() == 0,
            arena.block().len() == 0,
    {
        StackAllocator { memory: Vec::new(), total_size: size, allocated_size: 0 }
    }

    /// Reserves a zeroed block of `size` bytes and starts at offset 0.
    pub fn init(&mut self, size: usize)
        ensures
            final(self).capacity() == size,
            final(self).cursor() == 0,
            final(self).block() == Seq::new(size as nat, |i: int| 0u8),
    {
        let memory: Vec<u8> = vec![0u8; size];
        *self = StackAllocator { memory, total_size: size, allocated_size: 0 };
    }

    /// Gives the block back and leaves an arena of no capacity.
    pub fn shutdown(&mut self)
        ensures
            final(self).capacity() == 0,
            final(self).cursor() == 0,
            final(self).block().len() == 0,
    {
        *self = StackAllocator { memory: Vec::new(), total_size: 0, allocated_size: 0 };
    }

    /// The cursor, to be handed to `free_marker` later.
    pub fn get_marker(&self) -> (marker: usize)
        ensures
            marker == self.cursor(),
            marker <= self.capacity(),
    {
        proof {
            use_type_invariant(self);
        }
        self.allocated_size
    }

    /// Moves the cursor back to `marker`; a marker ahead of the cursor is
    /// ignored, so the cursor never moves forward.
    pub fn free_marker(&mut self, marker: usize)
        ensures
            final(self).cursor() == cursor_after_free_marker(old(self).cursor(), marker as nat),
            final(self).capacity() == old(self).capacity(),
            final(self).block() == old(self).block(),
    {
        proof {
            use_type_invariant(&*self);
        }
        if marker <= self.allocated_size {
            self.allocated_size = marker;
        }
    }

    /// The byte at `offset` of the block.
    pub fn read(&self, offset: usize) -> (value: u8)
        requires
            offset < self.block().len(),
        ensures
            value == self.block()[offset as int],
    {
        self.memory[offset]
    }

    /// Stores `value` at `offset` of the block; the cursors stay.
    pub fn write(&mut self, offset: usize, value: u8)
        requires
            offset < old(self).block().len(),
        ensures
            final(self).block() == old(self).block().update(offset as int, value),
            final(self).capacity() == old(self).capacity(),
            final(self).cursor() == old(self).cursor(),
    {
        proof {
            use_type_invariant(&*self);
        }
        self.memory[offset] = value;
    }

    /// Moves the cursor back to 0; every earlier allocation is void.
    pub fn clear(&mut self)
        ensures
            final(self).cursor() == 0,
            final(self).capacity() == old(self).capacity(),
            final(self).block() == old(self).block(),
    {
        proof {
            use_type_invariant(&*self);
        }
        self.allocated_size = 0;
    }

    /// Whether `allocate(size, alignment)` may be called.
    pub fn can_allocate(&self, size: usize, alignment: usize) -> (b: bool)
        ensures
            b == self.fits(size, alignment),
    {
        proof {
            use_type_invariant(self);
        }
        bump_fits(self.allocated_size, self.total_size, size, alignment)
    }
}

impl Allocator for StackAllocator {
    open spec fn fits(&self, size: usize, alignment: usize) -> bool {
        bump_fits_spec(self.cursor(), self.capacity(), size as nat, alignment as nat)
    }

    /// Aligns the cursor upward, reserves `size` bytes from there and returns
    /// the offset at which they start.
    fn allocate(&mut self, size: usize, alignment: usize) -> (pointer: usize)
        ensures
            pointer == aligned_up(old(self).cursor(), alignment as nat),
            pointer % alignment == 0,
            old(self).cursor() <= pointer,
            final(self).cursor() == cursor_after_allocate(
                old(self).cursor(),
                size as nat,
                alignment as nat,
            ),
            final(self).cursor() == pointer + size,
            final(self).cursor() <= final(self).capacity(),
            final(self).capacity() == old(self).capacity(),
            final(self).block() == old(self).block(),
    {
        proof {
            use_type_invariant(&*self);
        }
        let new_start: usize = memory_align(self.allocated_size, alignment);
        let new_allocated_size: usize = new_start + size;
        self.allocated_size = new_allocated_size;
        new_start
    }

    /// Freeing happens by marker or in bulk: this changes nothing.
    fn deallocate(&mut self, _pointer: usize)
        ensures
            *final(self) == *old(self),
    {
    }
}

/// Restoring the marker taken before an allocation undoes the allocation: the
/// cursor is back where the marker was taken.
pub proof fn lemma_marker_undoes_allocation(cursor: nat, size: nat, alignment: nat)
    requires
        alignment > 0,
    ensures
        cursor_after_free_marker(cursor_after_allocate(cursor, size, alignment), cursor) == cursor,
{
    lemma_aligned_up(cursor, alignment);
}

/// Two allocations served one after the other by a bump arena do not overlap:
/// the second starts at or after the end of the first.
pub proof fn lemma_successive_allocations_disjoint(
    cursor: nat,
    size1: nat,
    alignment1: nat,
    size2: nat,
    alignment2: nat,
)
    requires
        alignment1 > 0,
        alignment2 > 0,
    ensures
        cursor <= aligned_up(cursor, alignment1),
        aligned_up(cursor, alignment1) + size1 <= aligned_up(
            cursor_after_allocate(cursor, size1, alignment1),
            alignment2,
        ),
{
    lemma_aligned_up(cursor, alignment1);
    lemma_aligned_up(cursor_after_allocate(cursor, size1, alignment1), alignment2);
}

/// Two cursors over one block: `bottom` grows upward from 0, `top` grows
/// downward from the capacity, and `bottom <= top` always holds.
pub struct DoubleStackAllocator {
    memory: Vec<u8>,
    top: usize,
    bottom: usize,
    total_size: usize,
}

/// Where `top` stands after the top side served `size` bytes at `alignment`.
pub open spec fn top_after_allocate(top: nat, size: nat, alignment: nat) -> nat
    recommends
        size <= top,
        alignment > 0,
{
    aligned_down((top - size) as nat, alignment)
}

/// Where `top` stands after a marker was restored: at the marker if that lies
/// above `top` and not beyond the capacity, else where it was.
pub open spec fn top_after_free_marker(top: nat, marker: nat, capacity: nat) -> nat {
    if top < marker && marker <= capacity {
        marker
    } else {
        top
    }
}

/// Restoring the top marker taken before an allocation from the top undoes
/// the allocation: the top cursor is back where the marker was taken, also
/// where that was the capacity itself.
pub proof fn lemma_top_marker_undoes_allocation(top: nat, size: nat, alignment: nat, capacity: nat)
    requires
        alignment > 0,
        size <= top <= capacity,
    ensures
        top_after_free_marker(top_after_allocate(top, size, alignment), top, capacity) == top,
{
    lemma_aligned_down((top - size) as nat, alignment);
}

/// Where `top` stands after `size` bytes were given back: `size` higher, and
/// never above the capacity.
pub open spec fn top_after_deallocate(top: nat, size: nat, capacity: nat) -> nat {
    if top + size > capacity {
        capacity
    } else {
        top + size
    }
}

/// Where `bottom` stands after `size` bytes were given back: `size` lower, and
/// never below 0.
pub open spec fn bottom_after_deallocate(bottom: nat, size: nat) -> nat {
    if size > bottom {
        0
    } else {
        (bottom - size) as nat
    }
}

impl DoubleStackAllocator {
    #[verifier::type_invariant]
    spec fn inv(&self) -> bool {
        &&& self.bottom <= self.top
        &&& self.top <= self.total_size
        &&& (self.memory@.len() == 0 || self.memory@.len() == self.total_size)
    }

    /// The number of bytes the arena manages.
    pub closed spec fn capacity(&self) -> nat {
        self.total_size as nat
    }

    /// The offset at and above which the top side has handed out every byte.
    pub closed spec fn top(&self) -> nat {
        self.top as nat
    }

    /// The offset below which the bottom side has handed out every byte.
    pub closed spec fn bottom(&self) -> nat {
        self.bottom as nat
    }

    /// The block that backs the offsets; empty until `init` reserves it.
    pub closed spec fn block(&self) -> Seq<u8> {
        self.memory@
    }

    /// Whether `allocate_top(size, alignment)` may be called: the new top must
    /// stay above the bottom cursor.
    pub open spec fn fits_top(&self, size: usize, alignment: usize) -> bool {
        &&& alignment > 0
        &&& size <= self.top()
        &&& top_after_allocate(self.top(), size as nat, alignment as nat) > self.bottom()
    }

    /// Whether `allocate_bottom(size, alignment)` may be called: the new bottom
    /// must stay below the top cursor.
    pub open spec fn fits_bottom(&self, size: usize, alignment: usize) -> bool {
        &&& alignment > 0
        &&& cursor_after_allocate(self.bottom(), size as nat, alignment as nat) < self.top()
    }

    /// An arena of `size` bytes whose block is not reserved yet.
    pub fn new(size: usize) -> (arena: Self)
        ensures
            arena.capacity() == size,
            arena.top() == size,
            arena.bottom() == 0,
            arena.block().len() == 0,
    {
        DoubleStackAllocator { memory: Vec::new(), top: size, bottom: 0, total_size: size }
    }

    /// Reserves a zeroed block of `size` bytes with both sides empty.
    pub fn init(&mut self, size: usize)
        ensures
            final(self).capacity() == size,
            final(self).top() == size,
            final(self).bottom() == 0,
            final(self).block() == Seq::new(size as nat, |i: int| 0u8),
    {
        let memory: Vec<u8> = vec![0u8; size];
        *self = DoubleStackAllocator { memory, top: size, bottom: 0, total_size: size };
    }

    /// Gives the block back and puts both cursors at 0. The capacity stays
    /// on record.
    pub fn shutdown(&mut self)
        ensures
            final(self).capacity() == old(self).capacity(),
            final(self).top() == 0,
            final(self).bottom() == 0,
            final(self).block().len() == 0,
    {
        let total_size: usize = self.total_size;
        *self = DoubleStackAllocator { memory: Vec::new(), top: 0, bottom: 0, total_size };
    }

    /// Whether `allocate_top(size, alignment)` may be called.
    pub fn can_allocate_top(&self, size: usize, alignment: usize) -> (b: bool)
        ensures
            b == self.fits_top(size, alignment),
    {
        if alignment == 0 || size > self.top {
            return false;
        }
        let start: usize = self.top - size;
        proof {
            lemma_aligned_down(start as nat, alignment as nat);
        }
        start - start % alignment > self.bottom
    }

    /// Whether `allocate_bottom(size, alignment)` may be called.
    pub fn can_allocate_bottom(&self, size: usize, alignment: usize) -> (b: bool)
        ensures
            b == self.fits_bottom(size, alignment),
    {
        proof {
            use_type_invariant(self);
        }
        if alignment == 0 {
            return false;
        }
        proof {
            lemma_aligned_up_padding(self.bottom as nat, alignment as nat);
        }
        let rest: usize = self.bottom % alignment;
        let padding: usize = if rest == 0 {
            0
        } else {
            alignment - rest
        };
        let free: usize = self.top - self.bottom;
        padding <= free && size < free - padding
    }

    /// Reserves `size` bytes below the top cursor, aligned downward, and
    /// returns the offset at which they start: the new top.
    pub fn allocate_top(&mut self, size: usize, alignment: usize) -> (offset: usize)
        requires
            old(self).fits_top(size, alignment),
        ensures
            offset == top_after_allocate(old(self).top(), size as nat, alignment as nat),
            offset % alignment == 0,
            offset + size <= old(self).top(),
            final(self).top() == offset,
            final(self).bottom() == old(self).bottom(),
            final(self).bottom() < final(self).top() <= final(self).capacity(),
            final(self).capacity() == old(self).capacity(),
            final(self).block() == old(self).block(),
    {
        proof {
            use_type_invariant(&*self);
            lemma_aligned_down((self.top - size) as nat, alignment as nat);
        }
        let start: usize = self.top - size;
        proof {
            lemma_aligned_down(start as nat, alignment as nat);
        }
        let new_start: usize = start - start % alignment;
        self.top = new_start;
        new_start
    }

    /// Reserves `size` bytes above the bottom cursor, aligned upward, and
    /// returns the offset at which they start.
    pub fn allocate_bottom(&mut self, size: usize, alignment: usize) -> (offset: usize)
        requires
            old(self).fits_bottom(size, alignment),
        ensures
            offset == aligned_up(old(self).bottom(), alignment as nat),
            offset % alignment == 0,
            old(self).bottom() <= offset,
            final(self).bottom() == cursor_after_allocate(
                old(self).bottom(),
                size as nat,
                alignment as nat,
            ),
            final(self).bottom() == offset + size,
            final(self).top() == old(self).top(),
            final(self).bottom() < final(self).top() <= final(self).capacity(),
            final(self).capacity() == old(self).capacity(),
            final(self).block() == old(self).block(),
    {
        proof {
            use_type_invariant(&*self);
        }
        let new_start: usize = memory_align(self.bottom, alignment);
        let new_allocated_size: usize = new_start + size;
        self.bottom = new_allocated_size;
        new_start
    }

    /// Gives `size` bytes back to the top side: the top cursor moves up by
    /// `size`, and stops at the capacity.
    pub fn deallocate_top(&mut self, size: usize)
        ensures
            final(self).top() == top_after_deallocate(
                old(self).top(),
                size as nat,
                old(self).capacity(),
            ),
            final(self).bottom() == old(self).bottom(),
            final(self).bottom() <= final(self).top() <= final(self).capacity(),
            final(self).capacity() == old(self).capacity(),
            final(self).block() == old(self).block(),
    {
        proof {
            use_type_invariant(&*self);
        }
        if size > self.total_size - self.top {
            self.top = self.total_size;
        } else {
            self.top += size;
        }
    }

    /// Gives `size` bytes back to the bottom side: the bottom cursor moves down
    /// by `size`, and stops at 0.
    pub fn deallocate_bottom(&mut self, size: usize)
        ensures
            final(self).bottom() == bottom_after_deallocate(old(self).bottom(), size as nat),
            final(self).top() == old(self).top(),
            final(self).bottom() <= final(self).top() <= final(self).capacity(),
            final(self).capacity() == old(self).capacity(),
            final(self).block() == old(self).block(),
    {
        proof {
            use_type_invariant(&*self);
        }
        if size > self.bottom {
            self.bottom = 0;
        } else {
            self.bottom -= size;
        }
    }

    /// The top cursor, to be handed to `free_top_marker` later.
    pub fn get_top_marker(&self) -> (marker: usize)
        ensures
            marker == self.top(),
            self.bottom() <= marker <= self.capacity(),
    {
        proof {
            use_type_invariant(self);
        }
        self.top
    }

    /// The bottom cursor, to be handed to `free_bottom_marker` later.
    pub fn get_bottom_marker(&self) -> (marker: usize)
        ensures
            marker == self.bottom(),
            marker <= self.top(),
    {
        proof {
            use_type_invariant(self);
        }
        self.bottom
    }

    /// Moves the top cursor back up to `marker`, if the marker lies above it
    /// and inside the arena; any other marker is ignored, so the cursor never
    /// moves down.
    pub fn free_top_marker(&mut self, marker: usize)
        ensures
            final(self).top() == top_after_free_marker(
                old(self).top(),
                marker as nat,
                old(self).capacity(),
            ),
            final(self).bottom() == old(self).bottom(),
            final(self).bottom() <= final(self).top() <= final(self).capacity(),
            final(self).capacity() == old(self).capacity(),
            final(self).block() == old(self).block(),
    {
        proof {
            use_type_invariant(&*self);
        }
        if marker > self.top && marker <= self.total_size {
            self.top = marker;
        }
    }

    /// Moves the bottom cursor down to `marker`, if the marker lies below it;
    /// any other marker is ignored.
    pub fn free_bottom_marker(&mut self, marker: usize)
        ensures
            final(self).bottom() == if marker < old(self).bottom() {
                marker as nat
            } else {
                old(self).bottom()
            },
            final(self).top() == old(self).top(),
            final(self).bottom() <= final(self).top() <= final(self).capacity(),
            final(self).capacity() == old(self).capacity(),
            final(self).block() == old(self).block(),
    {
        proof {
            use_type_invariant(&*self);
        }
        if marker < self.bottom {
            self.bottom = marker;
        }
    }

    /// The byte at `offset` of the block.
    pub fn read(&self, offset: usize) -> (value: u8)
        requires
            offset < self.block().len(),
        ensures
            value == self.block()[offset as int],
    {
        self.memory[offset]
    }

    /// Stores `value` at `offset` of the block; the cursors stay.
    pub fn write(&mut self, offset: usize, value: u8)
        requires
            offset < old(self).block().len(),
        ensures
            final(self).block() == old(self).block().update(offset as int, value),
            final(self).capacity() == old(self).capacity(),
            final(self).top() == old(self).top(),
            final(self).bottom() == old(self).bottom(),
    {
        proof {
            use_type_invariant(&*self);
        }
        self.memory[offset] = value;
    }

    /// Empties the top side: the top cursor stands at the capacity again.
    pub fn clear_top(&mut self)
        ensures
            final(self).top() == old(self).capacity(),
            final(self).bottom() == old(self).bottom(),
            final(self).bottom() <= final(self).top(),
            final(self).capacity() == old(self).capacity(),
            final(self).block() == old(self).block(),
    {
        proof {
            use_type_invariant(&*self);
        }
        self.top = self.total_size;
    }

    /// Empties the bottom side: the bottom cursor stands at 0 again.
    pub fn clear_bottom(&mut self)
        ensures
            final(self).bottom() == 0,
            final(self).top() == old(self).top(),
            final(self).top() <= final(self).capacity(),
            final(self).capacity() == old(self).capacity(),
            final(self).block() == old(self).block(),
    {
        proof {
            use_type_invariant(&*self);
        }
        self.bottom = 0;
    }
}

impl Allocator for DoubleStackAllocator {
    open spec fn fits(&self, size: usize, alignment: usize) -> bool {
        self.fits_top(size, alignment)
    }

    /// Serves the request from the top side.
    fn allocate(&mut self, size: usize, alignment: usize) -> (pointer: usize)
        ensures
            pointer == top_after_allocate(old(self).top(), size as nat, alignment as nat),
            final(self).top() == pointer,
            final(self).bottom() == old(self).bottom(),
            final(self).capacity() == old(self).capacity(),
            final(self).block() == old(self).block(),
    {
        self.allocate_top(size, alignment)
    }

    /// Freeing happens by size, by marker or in bulk: this changes nothing.
    fn deallocate(&mut self, _pointer: usize)
        ensures
            *final(self) == *old(self),
    {
    }
}

/// What a block of the heap arena holds, or `None` once it was given back.
pub open spec fn block_view(block: Option<Vec<u8>>) -> Option<Seq<u8>> {
    match block {
        Some(bytes) => Some(bytes@),
        None => None,
    }
}

/// The pass-through arena: every request gets a block of its own from the
/// system, named by a handle, and `deallocate` gives that block back. The size
/// given to `init` is bookkeeping only and bounds nothing.
pub struct HeapAllocator {
    memory: Vec<u8>,
    allocated_size: usize,
    max_size: usize,
    blocks: Vec<Option<Vec<u8>>>,
}

impl HeapAllocator {
    /// The size that `init` was given.
    pub closed spec fn reserved(&self) -> nat {
        self.allocated_size as nat
    }

    /// The bound that `init` recorded: the size it was given.
    pub closed spec fn max_reserved(&self) -> nat {
        self.max_size as nat
    }

    /// Every block handed out so far, by handle; `None` where it was given back.
    pub closed spec fn blocks(&self) -> Seq<Option<Seq<u8>>> {
        Seq::new(self.blocks@.len(), |i: int| block_view(self.blocks@[i]))
    }

    pub fn new() -> (heap: Self)
        ensures
            heap.reserved() == 0,
            heap.max_reserved() == 0,
            heap.blocks() == Seq::<Option<Seq<u8>>>::empty(),
    {
        HeapAllocator { memory: Vec::new(), allocated_size: 0, max_size: 0, blocks: Vec::new() }
    }

    /// Reserves `size` zeroed bytes up front and records the size.
    pub fn init(&mut self, size: usize)
        ensures
            final(self).reserved() == size,
            final(self).max_reserved() == size,
            final(self).blocks() == old(self).blocks(),
    {
        self.memory = vec![0u8; size];
        self.allocated_size = size;
        self.max_size = size;
        assert(self.blocks() =~= old(self).blocks());
    }

    /// Gives the reserved bytes back; blocks that are still out stay valid.
    pub fn shutdown(&mut self)
        ensures
            final(self).reserved() == 0,
            final(self).max_reserved() == 0,
            final(self).blocks() == old(self).blocks(),
    {
        self.memory = Vec::new();
        self.allocated_size = 0;
        self.max_size = 0;
        assert(self.blocks() =~= old(self).blocks());
    }
}

impl HeapAllocator {
    /// The byte at `offset` of the block named by `pointer`.
    pub fn read(&self, pointer: usize, offset: usize) -> (value: u8)
        requires
            pointer < self.blocks().len(),
            self.blocks()[pointer as int] matches Some(block) && offset < block.len(),
        ensures
            value == self.blocks()[pointer as int]->0[offset as int],
    {
        assert(self.blocks()[pointer as int] == block_view(self.blocks@[pointer as int]));
        match &self.blocks[pointer] {
            Some(block) => block[offset],
            None => 0,
        }
    }

    /// Stores `value` at `offset` of the block named by `pointer`.
    pub fn write(&mut self, pointer: usize, offset: usize, value: u8)
        requires
            pointer < old(self).blocks().len(),
            old(self).blocks()[pointer as int] matches Some(block) && offset < block.len(),
        ensures
            final(self).blocks() == old(self).blocks().update(
                pointer as int,
                Some(old(self).blocks()[pointer as int]->0.update(offset as int, value)),
            ),
            final(self).reserved() == old(self).reserved(),
            final(self).max_reserved() == old(self).max_reserved(),
    {
        assert(self.blocks()[pointer as int] == block_view(self.blocks@[pointer as int]));
        match &mut self.blocks[pointer] {
            Some(block) => {
                block[offset] = value;
            },
            None => {},
        }
        assert(self.blocks() =~= old(self).blocks().update(
            pointer as int,
            Some(old(self).blocks()[pointer as int]->0.update(offset as int, value)),
        ));
    }
}

impl Allocator for HeapAllocator {
    /// The heap arena turns no request down.
    open spec fn fits(&self, size: usize, alignment: usize) -> bool {
        true
    }

    /// Takes a fresh zeroed block of `size` bytes from the system and returns
    /// its handle; the alignment is not looked at.
    fn allocate(&mut self, size: usize, _alignment: usize) -> (pointer: usize)
        ensures
            pointer == old(self).blocks().len(),
            final(self).blocks() == old(self).blocks().push(
                Some(Seq::new(size as nat, |i: int| 0u8)),
            ),
            final(self).reserved() == old(self).reserved(),
            final(self).max_reserved() == old(self).max_reserved(),
    {
        let block: Vec<u8> = vec![0u8; size];
        assert(block@ =~= Seq::new(size as nat, |i: int| 0u8));
        let pointer: usize = self.blocks.len();
        self.blocks.push(Some(block));
        assert(self.blocks() =~= old(self).blocks().push(
            Some(Seq::new(size as nat, |i: int| 0u8)),
        ));
        pointer
    }

    /// Gives the block named by `pointer` back to the system; a handle that
    /// was never handed out is ignored.
    fn deallocate(&mut self, pointer: usize)
        ensures
            final(self).blocks() == if pointer < old(self).blocks().len() {
                old(self).blocks().update(pointer as int, None)
            } else {
                old(self).blocks()
            },
            final(self).reserved() == old(self).reserved(),
            final(self).max_reserved() == old(self).max_reserved(),
    {
        if pointer < self.blocks.len() {
            self.blocks.set(pointer, None);
            assert(self.blocks() =~= old(self).blocks().update(pointer as int, None));
        } else {
            assert(self.blocks() =~= old(self).blocks());
        }
    }
}

pub const KILO: usize = 1024;

pub const MEGA: usize = 1024 * 1024;

pub const GIGA: usize = 1024 * 1024 * 1024;

/// How much memory the service reserves when it starts.
#[derive(Debug)]
pub struct MemoryServiceConfiguration {
    pub maximum_dynamic_size: usize,
}

impl Default for MemoryServiceConfiguration {
    fn default() -> (configuration: Self)
        ensures
            configuration.maximum_dynamic_size == 32 * MEGA,
    {
        MemoryServiceConfiguration { maximum_dynamic_size: 32 * MEGA }
    }
}

/// Counters that describe the use of an arena.
#[derive(Debug)]
pub struct MemoryStatistics {
    pub allocated_bytes: usize,
    pub total_bytes: usize,
    pub allocation_count: u32,
}

/// The arenas of the engine: one for scratch memory, one that passes through
/// to the system.
pub struct MemoryService {
    pub scratch_allocator: LinearAllocator,
    pub system_allocator: HeapAllocator,
}

impl MemoryService {
    /// A service whose arenas are both as their own `new` makes them: a
    /// scratch arena without block or capacity, and a system arena that has
    /// reserved nothing and handed out no block.
    pub fn new() -> (service: Self)
        ensures
            service.scratch_allocator.capacity() == 0,
            service.scratch_allocator.cursor() == 0,
            service.scratch_allocator.block().len() == 0,
            service.system_allocator.reserved() == 0,
            service.system_allocator.max_reserved() == 0,
            service.system_allocator.blocks() == Seq::<Option<Seq<u8>>>::empty(),
    {
        MemoryService {
            scratch_allocator: LinearAllocator::new(),
            system_allocator: HeapAllocator::new(),
        }
    }

    /// Starts the system arena with the size that the configuration names.
    pub fn init(&mut self, configuration: &MemoryServiceConfiguration)
        ensures
            final(self).system_allocator.reserved() == configuration.maximum_dynamic_size,
            final(self).system_allocator.blocks() == old(self).system_allocator.blocks(),
            final(self).scratch_allocator == old(self).scratch_allocator,
    {
        self.system_allocator.init(configuration.maximum_dynamic_size);
    }

    /// Stops the system arena.
    pub fn shutdown(&mut self)
        ensures
            final(self).system_allocator.reserved() == 0,
            final(self).system_allocator.blocks() == old(self).system_allocator.blocks(),
            final(self).scratch_allocator == old(self).scratch_allocator,
    {
        self.system_allocator.shutdown();
    }
}

} // verus!
