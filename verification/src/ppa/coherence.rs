//! Why the planned calls keep the CPU's cache and memory in step.
//!
//! The PPA reads and writes memory behind the CPU's cache. A byte is *dirty*
//! while the cache holds a CPU write that memory lacks, and *stale* while the
//! cache may hold an older value than memory. The PPA must not read dirty
//! bytes, and the CPU must not read stale ones.

use vstd::prelude::*;

use crate::ppa::cache::{flush_call, invalidate_call};
use crate::ppa::driver::{ByteRange, DriverCall, InPicture, SyncDirection};
use crate::ppa::fill::FillTargetState;
use crate::ppa::srm::{bytes_per_pixel, Blit, SrmTargetState};

verus! {

/// The addresses whose cached value and memory differ.
#[verifier::ext_equal]
pub ghost struct CacheModel {
    pub dirty: Set<int>,
    pub stale: Set<int>,
}

/// The addresses of an input picture, a packed grid of pixels.
pub open spec fn picture_bytes(p: InPicture) -> Set<int> {
    Set::new(
        |a: int|
            p.buffer <= a < p.buffer + p.pic_w * p.pic_h * bytes_per_pixel(p.color_mode),
    )
}

/// The addresses that the PPA may read while it makes `call`. Nothing is known
/// of a blend, whose descriptor is the caller's.
pub open spec fn device_reads(call: DriverCall) -> Set<int> {
    match call {
        DriverCall::Fill { .. } => Set::empty(),
        DriverCall::Blend { .. } => Set::full(),
        DriverCall::Srm { srm, .. } => picture_bytes(srm.input),
        DriverCall::CacheSync { .. } => Set::empty(),
    }
}

/// The addresses that the PPA may write while it makes `call`.
pub open spec fn device_writes(call: DriverCall) -> Set<int> {
    match call {
        DriverCall::Fill { fill, .. } => fill.out.bytes(),
        DriverCall::Blend { .. } => Set::full(),
        DriverCall::Srm { srm, .. } => srm.out.bytes(),
        DriverCall::CacheSync { .. } => Set::empty(),
    }
}

impl CacheModel {
    /// The cache after `call` succeeded. A flush cleans its range; an
    /// invalidation empties its range, dirty bytes included; an operation
    /// leaves what it may have written stale.
    pub open spec fn after(self, call: DriverCall) -> CacheModel {
        match call {
            DriverCall::CacheSync { range, direction } => match direction {
                SyncDirection::CacheToMemory => CacheModel {
                    dirty: self.dirty.difference(range.bytes()),
                    stale: self.stale,
                },
                SyncDirection::MemoryToCache => CacheModel {
                    dirty: self.dirty.difference(range.bytes()),
                    stale: self.stale.difference(range.bytes()),
                },
            },
            _ => CacheModel { dirty: self.dirty, stale: self.stale.union(device_writes(call)) },
        }
    }

    /// The cache after `calls` succeeded one after another.
    pub open spec fn after_all(self, calls: Seq<DriverCall>) -> CacheModel
        decreases calls.len(),
    {
        if calls.len() == 0 {
            self
        } else {
            self.after_all(calls.drop_last()).after(calls.last())
        }
    }
}

/// The number of bytes that the driver is told of never exceeds the buffer's.
proof fn lemma_truncated_size(n: usize)
    ensures
        (n as u32) <= n,
{
    assert((n as u32) <= n) by (bit_vector);
}

proof fn lemma_fill_steps(
    t: FillTargetState,
    x: u32,
    y: u32,
    w: u32,
    h: u32,
    fill_val: u32,
    m: CacheModel,
)
    ensures
        ({
            let calls = t.fill_calls(x, y, w, h, fill_val);
            m.after_all(calls) == m.after(calls[0]).after(calls[1])
        }),
{
    let calls = t.fill_calls(x, y, w, h, fill_val);
    reveal_with_fuel(CacheModel::after_all, 3);
    assert(calls.drop_last().last() == calls[0]);
    assert(calls.drop_last().drop_last() =~= Seq::empty());
}

proof fn lemma_blit_steps(t: SrmTargetState, b: Blit, m: CacheModel)
    ensures
        ({
            let calls = t.blit_calls(b);
            &&& m.after_all(calls.take(2)) == m.after(calls[0]).after(calls[1])
            &&& m.after_all(calls.take(3)) == m.after(calls[0]).after(calls[1]).after(calls[2])
            &&& m.after_all(calls) == m.after(calls[0]).after(calls[1]).after(calls[2]).after(
                calls[3],
            )
        }),
{
    let calls = t.blit_calls(b);
    assert(calls.drop_last() =~= calls.take(3));
    assert(calls.take(3).drop_last() =~= calls.take(2));
    assert(calls.take(2).drop_last() =~= calls.take(1));
    assert(calls.take(1).drop_last() =~= Seq::empty());
    assert(m.after_all(Seq::empty()) == m);
    assert(m.after_all(calls.take(1)) == m.after(calls[0]));
    assert(m.after_all(calls.take(2)) == m.after(calls[0]).after(calls[1]));
    assert(m.after_all(calls.take(3)) == m.after(calls[0]).after(calls[1]).after(calls[2]));
}

/// A flush writes back exactly the bytes of its range: none of them is dirty
/// afterwards, and every other byte is as it was.
pub proof fn law_flush_cleans_its_range(addr: usize, size: usize, m: CacheModel, a: int)
    ensures
        ({
            let after = m.after(flush_call(ByteRange { addr, size }));
            &&& after.dirty.contains(a) <==> m.dirty.contains(a) && !(addr <= a < addr + size)
            &&& after.stale.contains(a) <==> m.stale.contains(a)
        }),
{
}

/// An invalidation drops exactly the bytes of its range from the cache: none of
/// them is stale or dirty afterwards, and every other byte is as it was.
pub proof fn law_invalidation_refreshes_its_range(addr: usize, size: usize, m: CacheModel, a: int)
    ensures
        ({
            let after = m.after(invalidate_call(ByteRange { addr, size }));
            &&& after.stale.contains(a) <==> m.stale.contains(a) && !(addr <= a < addr + size)
            &&& after.dirty.contains(a) <==> m.dirty.contains(a) && !(addr <= a < addr + size)
        }),
{
}

/// After a fill the CPU reads what the PPA wrote: whatever the cache held
/// before, no byte of the framebuffer is stale, and no byte elsewhere has
/// become so. Nor is any byte of the framebuffer dirty: CPU writes to it that
/// had not been flushed by then are dropped when the cache is invalidated,
/// outside the filled rectangle too. Elsewhere no CPU write is lost.
pub proof fn law_fill_is_seen_by_the_cpu(
    t: FillTargetState,
    x: u32,
    y: u32,
    w: u32,
    h: u32,
    fill_val: u32,
    m: CacheModel,
)
    ensures
        m.after_all(t.fill_calls(x, y, w, h, fill_val)).stale == m.stale.difference(
            t.framebuffer.bytes(),
        ),
        m.after_all(t.fill_calls(x, y, w, h, fill_val)).dirty == m.dirty.difference(
            t.framebuffer.bytes(),
        ),
{
    lemma_fill_steps(t, x, y, w, h, fill_val, m);
    lemma_truncated_size(t.framebuffer.size);
    assert(m.after_all(t.fill_calls(x, y, w, h, fill_val)).stale =~= m.stale.difference(
        t.framebuffer.bytes(),
    ));
}

/// A blit reads what the CPU wrote: whatever the cache held before, no byte
/// that the PPA reads is dirty when the operation is submitted.
pub proof fn law_blit_reads_what_the_cpu_wrote(t: SrmTargetState, b: Blit, m: CacheModel)
    requires
        t.source_size(b) <= usize::MAX,
    ensures
        m.after_all(t.blit_calls(b).take(2)).dirty.disjoint(device_reads(t.blit_calls(b)[2])),
{
    lemma_blit_steps(t, b, m);
    assert(t.source(b).size == t.source_size(b)) by {
        assert(t.source_size(b) >= 0) by (nonlinear_arith)
            requires
                t.source_size(b) == b.src_w * b.src_h * bytes_per_pixel(t.color_mode),
        ;
    }
}

/// A blit loses no CPU write: the only bytes that stop being dirty are those
/// that were written back to memory before the operation, and none of the
/// framebuffer's is dirty when its cache lines are dropped. What is written back
/// is the framebuffer and the source's `src_w * src_h` pixels from `src_ptr` on.
pub proof fn law_blit_loses_no_cpu_write(t: SrmTargetState, b: Blit, m: CacheModel)
    ensures
        m.after_all(t.blit_calls(b).take(3)).dirty.disjoint(t.framebuffer.bytes()),
        m.after_all(t.blit_calls(b)).dirty == m.dirty.difference(t.source(b).bytes()).difference(
            t.framebuffer.bytes(),
        ),
        t.source_size(b) <= usize::MAX ==> forall|a: int| #[trigger]
            m.after_all(t.blit_calls(b)).dirty.contains(a) <==> {
                &&& m.dirty.contains(a)
                &&& !(b.src_ptr <= a < b.src_ptr + b.src_w * b.src_h * bytes_per_pixel(
                    t.color_mode,
                ))
                &&& !(t.framebuffer.addr <= a < t.framebuffer.addr + t.framebuffer.size)
            },
{
    lemma_blit_steps(t, b, m);
    assert(m.after_all(t.blit_calls(b)).dirty =~= m.dirty.difference(
        t.source(b).bytes(),
    ).difference(t.framebuffer.bytes()));
    assert(t.source_size(b) >= 0) by (nonlinear_arith)
        requires
            t.source_size(b) == b.src_w * b.src_h * bytes_per_pixel(t.color_mode),
    ;
}

/// After a blit the CPU reads what the PPA wrote: whatever the cache held
/// before, no byte of the framebuffer is stale, and no byte elsewhere has
/// become so.
pub proof fn law_blit_is_seen_by_the_cpu(t: SrmTargetState, b: Blit, m: CacheModel)
    ensures
        m.after_all(t.blit_calls(b)).stale == m.stale.difference(t.framebuffer.bytes()),
{
    lemma_blit_steps(t, b, m);
    lemma_truncated_size(t.framebuffer.size);
    assert(m.after_all(t.blit_calls(b)).stale =~= m.stale.difference(t.framebuffer.bytes()));
}

} // verus!
