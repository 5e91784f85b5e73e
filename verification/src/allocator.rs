use vstd::prelude::*;

verus! {

/// The memory size assumed for the board: one gigabyte.
pub fn memory_size() -> (r: usize)
    ensures
        r == (1usize << 30),
{
    1 << 30
}

/// `align` is a positive power of two, by the classic bit test.
pub open spec fn spec_is_pow2(align: usize) -> bool {
    align > 0 && (align & ((align - 1) as usize)) == 0
}

/// Distance from `addr` up to the next multiple of `align`: zero when
/// `addr` is already aligned.
pub open spec fn spec_align_pad(addr: usize, align: usize) -> int {
    (align - addr % align) % (align as int)
}

/// Round `addr` up to the next multiple of `align`.
pub fn align_up(addr: usize, align: usize) -> (r: usize)
    requires
        spec_is_pow2(align),
        addr + spec_align_pad(addr, align) <= usize::MAX,
    ensures
        r == addr + spec_align_pad(addr, align),
        r % align == 0,
        addr <= r < addr + align,
{
    let delta = align - addr % align;
    let actual_delta = delta % align;
    let r = addr + actual_delta;
    proof {
        let a = addr as int;
        let al = align as int;
        let m = a % al;
        let q = a / al;
        vstd::arithmetic::div_mod::lemma_fundamental_div_mod(a, al);
        assert(a == al * q + m);
        if addr % align == 0 {
            vstd::arithmetic::div_mod::lemma_mod_self_0(al);
            assert(r == addr);
        } else {
            vstd::arithmetic::div_mod::lemma_small_mod((align - addr % align) as nat, align as nat);
            assert(r as int == a + (al - m));
            assert(r as int == al * q + al);
            assert(al * q + al == al * (q + 1)) by {
                vstd::arithmetic::mul::lemma_mul_is_distributive_add(al, q, 1);
            }
            vstd::arithmetic::div_mod::lemma_mod_multiples_basic(q + 1, al);
            assert((q + 1) * al == al * (q + 1)) by {
                vstd::arithmetic::mul::lemma_mul_is_commutative(q + 1, al);
            }
        }
    }
    r
}

/// What any backing allocator offers the global allocator front end: a
/// constructor over a heap address range, an aligned-or-null `alloc`, and a
/// `dealloc`. Each implementation pins down its exact behaviour through
/// `alloc_post`.
pub trait ImplAllocator: Sized {
    /// Exactly what this allocator's `alloc` did, relating the state before
    /// the call, the request, and the returned address.
    spec fn alloc_post(&self, pre: Self, size: usize, align: usize, r: usize) -> bool;

    /// Exactly how a fresh allocator over the given heap range starts out.
    spec fn new_post(&self, start_memory_free: usize, end_memory: usize) -> bool;

    /// An allocator over the free range `start_memory_free..end_memory`.
    fn new(start_memory_free: usize, end_memory: usize) -> (r: Self)
        requires
            start_memory_free <= end_memory,
        ensures
            r.new_post(start_memory_free, end_memory),
    ;

    /// An address for `size` bytes at alignment `align`, or zero (the null
    /// address) when the request cannot be served.
    fn allocate(&mut self, size: usize, align: usize) -> (r: usize)
        ensures
            final(self).alloc_post(*old(self), size, align, r),
            r != 0 && spec_is_pow2(align) ==> r % align == 0,
    ;

    /// Release `ptr`; a no-op for allocators that never reuse memory.
    fn dealloc(&mut self, ptr: usize, size: usize, align: usize)
        ensures
            *final(self) == *old(self),
    ;
}

/// A bump allocator: hands out consecutive aligned chunks and never takes
/// one back. It serves a fixed number of requests, a debugging guard
/// against runaway allocation.
#[derive(Debug, Copy, Clone, PartialEq, Eq, Structural)]
pub struct BumpAllocator {
    /// First free address of the heap range.
    pub start_memory_free: usize,
    /// One past the last address of the heap range.
    pub end_memory: usize,
    /// Next address to hand out.
    pub current: usize,
    /// Requests left before the allocator refuses to serve.
    pub times: usize,
}

impl ImplAllocator for BumpAllocator {
    /// A bump allocation either fails, returning zero and leaving the state
    /// alone, or returns the current position rounded up to the alignment
    /// and advances past the new chunk, spending one request.
    open spec fn alloc_post(&self, pre: Self, size: usize, align: usize, r: usize) -> bool {
        let aligned = pre.current + spec_align_pad(pre.current, align);
        if pre.times == 0 || !spec_is_pow2(align) || aligned + size > usize::MAX {
            r == 0 && *self == pre
        } else {
            &&& r == aligned
            &&& self.current == aligned + size
            &&& self.times == pre.times - 1
            &&& self.start_memory_free == pre.start_memory_free
            &&& self.end_memory == pre.end_memory
        }
    }

    /// A fresh bump allocator sits at the start of its range with the full
    /// request budget.
    open spec fn new_post(&self, start_memory_free: usize, end_memory: usize) -> bool {
        *self == (BumpAllocator {
            start_memory_free,
            end_memory,
            current: start_memory_free,
            times: 30,
        })
    }

    fn new(start_memory_free: usize, end_memory: usize) -> (r: Self) {
        Self { start_memory_free, end_memory, current: start_memory_free, times: 30 }
    }

    fn allocate(&mut self, size: usize, align: usize) -> (r: usize) {
        if self.times == 0 {
            return 0;
        }
        if align == 0 || (align & (align - 1)) != 0 {
            return 0;
        }
        let pad = (align - self.current % align) % align;
        let aligned = match self.current.checked_add(pad) {
            Some(a) => a,
            None => { return 0; },
        };
        let new_current = match aligned.checked_add(size) {
            Some(c) => c,
            None => { return 0; },
        };
        let to_ret = align_up(self.current, align);
        self.current = new_current;
        self.times = self.times - 1;
        to_ret
    }

    fn dealloc(&mut self, _ptr: usize, _size: usize, _align: usize) {
    }
}

/// The global allocator front end: uninitialised until the kernel hands it
/// the heap range, then backed by the chosen allocator.
#[derive(Debug)]
pub struct Allocator<T> {
    /// The backing allocator, once initialised.
    pub allocator: Option<T>,
}

impl<T: ImplAllocator> Allocator<T> {
    /// A front end with no backing allocator yet.
    pub fn uninitialized() -> (r: Allocator<T>)
        ensures
            r.allocator is None,
    {
        Allocator { allocator: None }
    }

    /// Back the front end with an allocator over the given heap range.
    pub fn initialize(&mut self, heap_start: usize, heap_end: usize)
        requires
            heap_start <= heap_end,
        ensures
            final(self).allocator is Some,
            final(self).allocator.unwrap().new_post(heap_start, heap_end),
    {
        self.allocator = Some(T::new(heap_start, heap_end));
    }

    /// Serve an allocation through the backing allocator; zero (the null
    /// address) when uninitialised or when the backing allocator refuses.
    pub fn allocate(&mut self, size: usize, align: usize) -> (r: usize)
        ensures
            old(self).allocator is None ==> r == 0 && *final(self) == *old(self),
            r != 0 && spec_is_pow2(align) ==> r % align == 0,
    {
        match &mut self.allocator {
            Some(allocator) => allocator.allocate(size, align),
            None => 0,
        }
    }

    /// Release through the backing allocator.
    pub fn dealloc(&mut self, ptr: usize, size: usize, align: usize)
        ensures
            final(self).allocator is Some <==> old(self).allocator is Some,
    {
        match &mut self.allocator {
            Some(allocator) => allocator.dealloc(ptr, size, align),
            None => (),
        }
    }
}

} // verus!
