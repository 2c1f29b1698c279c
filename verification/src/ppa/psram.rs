//! Buffers in PSRAM, aligned for the PPA.

use vstd::prelude::*;

use crate::ppa::driver::{ByteRange, CACHE_LINE};

verus! {

/// Which memory an allocation is to come from.
#[derive(Copy, Clone, Debug, PartialEq, Eq, Structural)]
pub enum MemoryCaps {
    /// External RAM.
    Spiram,
}

/// A request for memory, the arguments of `heap_caps_aligned_alloc`.
#[derive(Copy, Clone, Debug, PartialEq, Eq, Structural)]
pub struct Allocation {
    pub align: usize,
    pub size: usize,
    pub caps: MemoryCaps,
    /// Whether the buffer is to be zeroed before use.
    pub zeroed: bool,
}

/// A write of `value` into every byte of `range`.
#[derive(Copy, Clone, Debug, PartialEq, Eq, Structural)]
pub struct MemoryFill {
    pub range: ByteRange,
    pub value: u8,
}

impl MemoryFill {
    /// Memory, by address, after the write.
    pub open spec fn written(self, memory: spec_fn(int) -> u8) -> spec_fn(int) -> u8 {
        |a: int|
            if self.range.addr <= a < self.range.addr + self.range.size {
                self.value
            } else {
                memory(a)
            }
    }

    /// Whether the write leaves zeros in the `size` bytes from `addr` on, and
    /// every other byte as it was.
    pub open spec fn zeroes(self, addr: int, size: int) -> bool {
        forall|memory: spec_fn(int) -> u8, a: int| #[trigger]
            self.written(memory)(a) == (if addr <= a < addr + size {
                0u8
            } else {
                memory(a)
            })
    }
}

/// A buffer, and the write to make before it is used, if there is one.
#[derive(Debug)]
pub struct Granted {
    pub buffer: PsramBuffer,
    pub fill: Option<MemoryFill>,
}

impl Allocation {
    /// The request for a buffer of `size` bytes.
    pub open spec fn request(size: usize, zeroed: bool) -> Allocation {
        Allocation { align: CACHE_LINE, size, caps: MemoryCaps::Spiram, zeroed }
    }

    /// What the allocator's answer amounts to. `addr` is the address that it
    /// returned, 0 where it had no memory. It is asked for an address on a cache
    /// line and returns no other.
    pub fn finish(self, addr: usize) -> (r: Option<Granted>)
        requires
            addr % CACHE_LINE == 0,
        ensures
            r is None <==> addr == 0,
            r matches Some(granted) ==> {
                &&& granted.buffer@ == ByteRange { addr, size: self.size }
                &&& self.zeroed ==> granted.fill == Some(
                    MemoryFill { range: granted.buffer@, value: 0 },
                )
                &&& !self.zeroed ==> granted.fill is None
                &&& granted.fill matches Some(fill) ==> fill.zeroes(addr as int, self.size as int)
            },
    {
        if addr == 0 {
            None
        } else {
            let mut buffer = PsramBuffer { ptr: addr, size: self.size };
            let fill = if self.zeroed {
                Some(buffer.zero())
            } else {
                None
            };
            Some(Granted { buffer, fill })
        }
    }
}

/// A heap allocation in PSRAM, aligned to a cache line.
#[derive(Debug)]
pub struct PsramBuffer {
    ptr: usize,
    size: usize,
}

/// The memory that the buffer occupies.
impl View for PsramBuffer {
    type V = ByteRange;

    closed spec fn view(&self) -> ByteRange {
        ByteRange { addr: self.ptr, size: self.size }
    }
}

impl PsramBuffer {
    #[verifier::type_invariant]
    spec fn is_allocated(self) -> bool {
        self.ptr != 0 && self.ptr % CACHE_LINE == 0
    }

    /// A buffer of `size` bytes whose contents are left as they are.
    pub fn new(size: usize) -> (r: Allocation)
        ensures
            r == (Allocation {
                align: CACHE_LINE,
                size,
                caps: MemoryCaps::Spiram,
                zeroed: false,
            }),
            r == Allocation::request(size, false),
    {
        Allocation { align: CACHE_LINE, size, caps: MemoryCaps::Spiram, zeroed: false }
    }

    /// A buffer of `size` zero bytes.
    pub fn new_zeroed(size: usize) -> (r: Allocation)
        ensures
            r == (Allocation {
                align: CACHE_LINE,
                size,
                caps: MemoryCaps::Spiram,
                zeroed: true,
            }),
            r == Allocation::request(size, true),
    {
        let mut allocation = Self::new(size);
        allocation.zeroed = true;
        allocation
    }

    /// Writes zeros over the entire buffer.
    pub fn zero(&mut self) -> (r: MemoryFill)
        ensures
            r == (MemoryFill { range: old(self)@, value: 0 }),
            r.zeroes(old(self)@.addr as int, old(self)@.size as int),
            *final(self) == *old(self),
    {
        MemoryFill { range: ByteRange { addr: self.ptr, size: self.size }, value: 0 }
    }

    /// Address of the buffer's start, which is never 0 and lies on a cache line.
    pub fn as_ptr(&self) -> (r: usize)
        ensures
            r == self@.addr,
            r != 0,
            r % CACHE_LINE == 0,
    {
        proof {
            use_type_invariant(self);
        }
        self.ptr
    }

    /// Address of the buffer's start, for writing.
    pub fn as_ptr_mut(&mut self) -> (r: usize)
        ensures
            r == old(self)@.addr,
            r != 0,
            r % CACHE_LINE == 0,
            *final(self) == *old(self),
    {
        proof {
            use_type_invariant(&*self);
        }
        self.ptr
    }

    /// Size of the allocation in bytes.
    pub fn size(&self) -> (r: usize)
        ensures
            r == self@.size,
    {
        self.size
    }

    /// The bytes of the allocation. What the PPA wrote there is read only after
    /// the cache lines have been invalidated.
    pub fn as_slice(&self) -> (r: ByteRange)
        ensures
            r == self@,
            r.addr != 0,
            r.addr % CACHE_LINE == 0,
    {
        proof {
            use_type_invariant(self);
        }
        ByteRange { addr: self.ptr, size: self.size }
    }

    /// The bytes of the allocation, for writing.
    pub fn as_mut_slice(&mut self) -> (r: ByteRange)
        ensures
            r == old(self)@,
            r.addr != 0,
            r.addr % CACHE_LINE == 0,
            *final(self) == *old(self),
    {
        proof {
            use_type_invariant(&*self);
        }
        ByteRange { addr: self.ptr, size: self.size }
    }
}

/// A request is for exactly the bytes asked for, in external memory, and any
/// address that has the alignment of the request lies on a cache line.
pub proof fn law_request_is_for_the_bytes_asked_for(size: usize, zeroed: bool, addr: int)
    ensures
        ({
            let request = Allocation::request(size, zeroed);
            &&& request.size == size
            &&& request.caps == MemoryCaps::Spiram
            &&& request.zeroed == zeroed
            &&& addr % (request.align as int) == 0 <==> addr % 64 == 0
        }),
{
}

/// A buffer stays where the allocator put it. `states` holds a buffer as it was
/// granted and after each of any number of calls on it, every one of which
/// leaves the buffer as it found it: in all of them it occupies the same memory,
/// which starts on a cache line and not at 0.
pub proof fn law_buffer_stays_in_place(states: Seq<PsramBuffer>, granted: ByteRange, i: int)
    requires
        granted.addr != 0,
        granted.addr % CACHE_LINE == 0,
        0 <= i < states.len(),
        states[0]@ == granted,
        forall|k: int| 0 < k < states.len() ==> #[trigger] states[k] == states[k - 1],
    ensures
        states[i]@ == granted,
        states[i]@.addr != 0,
        states[i]@.addr % CACHE_LINE == 0,
    decreases i,
{
    if i > 0 {
        law_buffer_stays_in_place(states, granted, i - 1);
    }
}

} // verus!
