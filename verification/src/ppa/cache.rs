//! Cache synchronisation between the CPU and the PPA.

use vstd::prelude::*;

use crate::ppa::driver::{ByteRange, DriverCall, SyncDirection, Transaction, TransactionState};

verus! {

/// The call that writes dirty cache lines over `range` out to memory.
pub open spec fn flush_call(range: ByteRange) -> DriverCall {
    DriverCall::CacheSync { range, direction: SyncDirection::CacheToMemory }
}

/// The call that drops cache lines over `range`.
pub open spec fn invalidate_call(range: ByteRange) -> DriverCall {
    DriverCall::CacheSync { range, direction: SyncDirection::MemoryToCache }
}

/// Flushes dirty cache lines over the `size` bytes from `ptr` on out to memory,
/// so that the PPA reads what the CPU wrote. Made on input buffers, after the
/// CPU's writes and before the operation is submitted.
pub fn msync_flush(ptr: usize, size: usize) -> (r: Transaction)
    ensures
        r@ == TransactionState::fresh(seq![flush_call(ByteRange { addr: ptr, size })]),
{
    let mut calls: Vec<DriverCall> = Vec::new();
    calls.push(
        DriverCall::CacheSync {
            range: ByteRange { addr: ptr, size },
            direction: SyncDirection::CacheToMemory,
        },
    );
    assert(calls@ =~= seq![flush_call(ByteRange { addr: ptr, size })]);
    Transaction::of(calls)
}

/// Invalidates cache lines over the `size` bytes from `ptr` on, so that the CPU
/// reads what the PPA wrote. Made on output buffers, after the operation is
/// done and before the CPU reads pixels back.
pub fn msync_invalidate(ptr: usize, size: usize) -> (r: Transaction)
    ensures
        r@ == TransactionState::fresh(seq![invalidate_call(ByteRange { addr: ptr, size })]),
{
    let mut calls: Vec<DriverCall> = Vec::new();
    calls.push(
        DriverCall::CacheSync {
            range: ByteRange { addr: ptr, size },
            direction: SyncDirection::MemoryToCache,
        },
    );
    assert(calls@ =~= seq![invalidate_call(ByteRange { addr: ptr, size })]);
    Transaction::of(calls)
}

} // verus!
