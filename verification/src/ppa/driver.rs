//! Driver calls and the transactions that string them together.

use vstd::prelude::*;

verus! {

/// Cache-line size in bytes. Every buffer that the PPA reads or writes starts
/// on a multiple of it.
pub const CACHE_LINE: usize = 64;

/// Status that the driver returns when a call succeeded.
pub const ESP_OK: i32 = 0;

/// The result that a driver status stands for: `ESP_OK` is success, and every
/// other status is the error itself.
pub fn esp_result(status: i32) -> (r: Result<(), i32>)
    ensures
        status == ESP_OK ==> r == Ok::<(), i32>(()),
        status != ESP_OK ==> r == Err::<(), i32>(status),
{
    if status == ESP_OK {
        Ok(())
    } else {
        Err(status)
    }
}

/// `size` bytes of memory from address `addr` on.
#[derive(Copy, Clone, Debug, PartialEq, Eq, Structural)]
pub struct ByteRange {
    pub addr: usize,
    pub size: usize,
}

impl ByteRange {
    /// The addresses in the range.
    pub open spec fn bytes(self) -> Set<int> {
        Set::new(|a: int| self.addr <= a < self.addr + self.size)
    }
}

/// Which way a cache synchronisation moves data.
#[derive(Copy, Clone, Debug, PartialEq, Eq, Structural)]
pub enum SyncDirection {
    /// Write dirty cache lines back, so that the PPA reads what the CPU wrote.
    CacheToMemory,
    /// Drop cached lines, so that the CPU reads what the PPA wrote.
    MemoryToCache,
}

impl SyncDirection {
    /// The flag word of `esp_cache_msync` for data in this direction: bit 0
    /// selects memory-to-cache, and the data type is all zeros.
    pub fn flags(self) -> (r: i32)
        ensures
            self == SyncDirection::CacheToMemory ==> r == 0,
            self == SyncDirection::MemoryToCache ==> r == 1,
    {
        match self {
            SyncDirection::CacheToMemory => 0,
            SyncDirection::MemoryToCache => 1,
        }
    }
}

/// Whether a submitted operation returns when it is done or when it is queued.
#[derive(Copy, Clone, Debug, PartialEq, Eq, Structural)]
pub enum TransMode {
    Blocking,
    NonBlocking,
}

/// Pixel format of a fill destination.
#[derive(Copy, Clone, Debug, PartialEq, Eq, Structural)]
pub enum FillColorMode {
    Rgb565,
    Rgb888,
    Argb8888,
    /// Any other mode, by the driver's own number.
    Other(u32),
}

/// Pixel format of a picture that the scale-rotate-mirror engine reads or
/// writes.
#[derive(Copy, Clone, Debug, PartialEq, Eq, Structural)]
pub enum SrmColorMode {
    Rgb565,
    Rgb888,
    Argb8888,
    /// Any other mode, by the driver's own number.
    Other(u32),
}

/// Pixel format of an output picture, in the numbering of the engine that
/// writes it.
#[derive(Copy, Clone, Debug, PartialEq, Eq, Structural)]
pub enum OutColorMode {
    Fill(FillColorMode),
    Srm(SrmColorMode),
}

/// The picture that an operation writes and where in it the written block
/// starts.
#[derive(Copy, Clone, Debug, PartialEq, Eq, Structural)]
pub struct OutPicture {
    pub buffer: usize,
    pub buffer_size: u32,
    pub pic_w: u32,
    pub pic_h: u32,
    pub block_offset_x: u32,
    pub block_offset_y: u32,
    pub color_mode: OutColorMode,
    pub yuv_range: u32,
    pub yuv_std: u32,
}

impl OutPicture {
    /// The addresses that belong to the picture.
    pub open spec fn bytes(self) -> Set<int> {
        Set::new(|a: int| self.buffer <= a < self.buffer + self.buffer_size)
    }
}

/// The picture that an operation reads and the block of it that is read.
#[derive(Copy, Clone, Debug, PartialEq, Eq, Structural)]
pub struct InPicture {
    pub buffer: usize,
    pub pic_w: u32,
    pub pic_h: u32,
    pub block_w: u32,
    pub block_h: u32,
    pub block_offset_x: u32,
    pub block_offset_y: u32,
    pub color_mode: SrmColorMode,
    pub yuv_range: u32,
    pub yuv_std: u32,
}

/// A fill: one pixel value over a block of the output picture.
#[derive(Copy, Clone, Debug, PartialEq, Eq, Structural)]
pub struct FillConfig {
    pub out: OutPicture,
    pub fill_block_w: u32,
    pub fill_block_h: u32,
    pub fill_color_val: u32,
    pub mode: TransMode,
}

impl FillConfig {
    /// Whether the fill writes the pixel in column `px` of row `py`.
    pub open spec fn covers(self, px: int, py: int) -> bool {
        &&& self.out.block_offset_x <= px < self.out.block_offset_x + self.fill_block_w
        &&& self.out.block_offset_y <= py < self.out.block_offset_y + self.fill_block_h
    }
}

/// Counter-clockwise rotation of a blit.
#[derive(Copy, Clone, Debug, PartialEq, Eq, Structural)]
pub enum Rotation {
    Angle0,
    Angle90,
    Angle180,
    Angle270,
}

/// What happens to the alpha channel on the way through the engine.
#[derive(Copy, Clone, Debug, PartialEq, Eq, Structural)]
pub enum AlphaUpdate {
    NoChange,
    /// Any other mode, by the driver's own number.
    Other(u32),
}

/// A scale factor, `numerator / denominator`.
#[derive(Copy, Clone, Debug, PartialEq, Eq, Structural)]
pub struct Scale {
    pub numerator: u32,
    pub denominator: u32,
}

/// A scale-rotate-mirror operation.
#[derive(Copy, Clone, Debug, PartialEq, Eq, Structural)]
pub struct SrmConfig {
    pub input: InPicture,
    pub out: OutPicture,
    pub rotation_angle: Rotation,
    pub scale_x: Scale,
    pub scale_y: Scale,
    pub mirror_x: bool,
    pub mirror_y: bool,
    pub rgb_swap: bool,
    pub byte_swap: bool,
    pub alpha_update_mode: AlphaUpdate,
    pub mode: TransMode,
}

/// One call into the driver. `client` is the handle of the client that the
/// operation is submitted to.
#[derive(Copy, Clone, Debug, PartialEq, Eq, Structural)]
pub enum DriverCall {
    /// `ppa_do_fill`.
    Fill { client: usize, fill: FillConfig },
    /// `ppa_do_blend`, with the descriptor that lies at address `blend`.
    Blend { client: usize, blend: usize },
    /// `ppa_do_scale_rotate_mirror`.
    Srm { client: usize, srm: SrmConfig },
    /// `esp_cache_msync`.
    CacheSync { range: ByteRange, direction: SyncDirection },
}

/// Where a transaction stands: its calls, how many of them have been made, and
/// the status of the last one made (`ESP_OK` before the first).
pub ghost struct TransactionState {
    pub calls: Seq<DriverCall>,
    pub made: nat,
    pub status: i32,
}

impl TransactionState {
    /// A transaction of which no call has been made.
    pub open spec fn fresh(calls: Seq<DriverCall>) -> TransactionState {
        TransactionState { calls, made: 0, status: ESP_OK }
    }

    /// Whether a call is still to be made: none has failed, and some are left.
    pub open spec fn is_pending(self) -> bool {
        self.status == ESP_OK && self.made < self.calls.len()
    }

    /// The call to make next, where there is one.
    pub open spec fn next_call(self) -> Option<DriverCall> {
        if self.is_pending() {
            Some(self.calls[self.made as int])
        } else {
            None
        }
    }

    /// The state after the next call returned `status`.
    pub open spec fn step(self, status: i32) -> TransactionState {
        TransactionState { calls: self.calls, made: self.made + 1, status }
    }

    /// What the transaction came to, once no call is pending.
    pub open spec fn outcome(self) -> Option<Result<(), i32>> {
        if self.is_pending() {
            None
        } else if self.status == ESP_OK {
            Some(Ok(()))
        } else {
            Some(Err(self.status))
        }
    }

    /// The state when the calls return `statuses` one after another, for as
    /// long as a call is pending.
    pub open spec fn play(self, statuses: Seq<i32>) -> TransactionState
        decreases statuses.len(),
    {
        if statuses.len() == 0 || !self.is_pending() {
            self
        } else {
            self.step(statuses[0]).play(statuses.drop_first())
        }
    }

    /// The calls that are made when they return `statuses` one after another,
    /// each the one that is asked for at that point.
    pub open spec fn made_calls(self, statuses: Seq<i32>) -> Seq<DriverCall>
        decreases statuses.len(),
    {
        match self.next_call() {
            Some(call) => if statuses.len() == 0 {
                Seq::empty()
            } else {
                seq![call] + self.step(statuses[0]).made_calls(statuses.drop_first())
            },
            None => Seq::empty(),
        }
    }
}

/// Driver calls to be made in order until one of them fails.
#[derive(Debug)]
pub struct Transaction {
    calls: Vec<DriverCall>,
    made: usize,
    status: i32,
}

impl View for Transaction {
    type V = TransactionState;

    closed spec fn view(&self) -> TransactionState {
        TransactionState { calls: self.calls@, made: self.made as nat, status: self.status }
    }
}

impl Transaction {
    /// A transaction that makes `calls`, none of them made yet.
    pub(crate) fn of(calls: Vec<DriverCall>) -> (r: Transaction)
        ensures
            r@ == TransactionState::fresh(calls@),
    {
        Transaction { calls, made: 0, status: ESP_OK }
    }

    /// A transaction that makes this one's calls and goes on to `next`'s where
    /// they all succeed. No call of either has been made.
    pub(crate) fn followed_by(self, next: Transaction) -> (r: Transaction)
        requires
            self@ == TransactionState::fresh(self@.calls),
            next@ == TransactionState::fresh(next@.calls),
        ensures
            r@ == TransactionState::fresh(self@.calls + next@.calls),
    {
        let mut calls = self.calls;
        let mut rest = next.calls;
        calls.append(&mut rest);
        Transaction { calls, made: 0, status: ESP_OK }
    }

    /// The call to make next, or `None` when all have been made or one failed.
    pub fn pending(&self) -> (r: Option<DriverCall>)
        ensures
            self@.is_pending() ==> r == Some(self@.calls[self@.made as int]),
            !self@.is_pending() ==> r is None,
            r == self@.next_call(),
    {
        if self.status == ESP_OK && self.made < self.calls.len() {
            Some(self.calls[self.made])
        } else {
            None
        }
    }

    /// Records that the pending call returned `status`.
    pub fn complete(&mut self, status: i32)
        requires
            old(self)@.is_pending(),
        ensures
            final(self)@ == old(self)@.step(status),
    {
        assert(self.made < self.calls.len());
        self.made = self.made + 1;
        self.status = status;
    }

    /// What the transaction came to: `None` while a call is pending, the
    /// failed call's status, or success once every call has been made.
    pub fn outcome(&self) -> (r: Option<Result<(), i32>>)
        ensures
            r == self@.outcome(),
    {
        if self.status != ESP_OK {
            Some(Err(self.status))
        } else if self.made < self.calls.len() {
            None
        } else {
            Some(Ok(()))
        }
    }
}

/// How many of `statuses` are `ESP_OK` before the first that is not.
spec fn leading_successes(statuses: Seq<i32>) -> nat
    decreases statuses.len(),
{
    if statuses.len() == 0 || statuses[0] != ESP_OK {
        0
    } else {
        1 + leading_successes(statuses.drop_first())
    }
}

proof fn lemma_leading_successes(statuses: Seq<i32>)
    ensures
        leading_successes(statuses) <= statuses.len(),
        forall|i: int| 0 <= i < leading_successes(statuses) ==> #[trigger] statuses[i] == ESP_OK,
        leading_successes(statuses) < statuses.len() ==> statuses[leading_successes(
            statuses,
        ) as int] != ESP_OK,
    decreases statuses.len(),
{
    if statuses.len() != 0 && statuses[0] == ESP_OK {
        let rest = statuses.drop_first();
        lemma_leading_successes(rest);
        assert forall|i: int| 0 <= i < leading_successes(statuses) implies #[trigger] statuses[i]
            == ESP_OK by {
            if i > 0 {
                assert(rest[i - 1] == statuses[i]);
            }
        }
    }
}

/// How far `play` gets from a state without a failure.
proof fn lemma_play(s: TransactionState, statuses: Seq<i32>)
    requires
        s.made <= s.calls.len(),
        s.status == ESP_OK,
    ensures
        ({
            let end = s.play(statuses);
            let left = s.calls.len() - s.made;
            let ok = leading_successes(statuses);
            &&& end.calls == s.calls
            &&& ok >= left ==> end.made == s.calls.len() && end.status == ESP_OK
            &&& ok < left && ok == statuses.len() ==> end.made == s.made + ok && end.status
                == ESP_OK
            &&& ok < left && ok < statuses.len() ==> end.made == s.made + ok + 1 && end.status
                == statuses[ok as int]
        }),
    decreases statuses.len(),
{
    lemma_leading_successes(statuses);
    if statuses.len() != 0 && s.is_pending() {
        let rest = statuses.drop_first();
        let next = s.step(statuses[0]);
        if statuses[0] == ESP_OK {
            lemma_play(next, rest);
        } else {
            assert(next.play(rest) == next);
        }
    }
}

/// A transaction succeeds exactly when every one of its calls succeeds: it is
/// over and without error if and only if the driver answered all of its calls
/// with `ESP_OK`, and then every call has been made.
pub proof fn law_success_means_every_call_succeeded(calls: Seq<DriverCall>, statuses: Seq<i32>)
    ensures
        ({
            let end = TransactionState::fresh(calls).play(statuses);
            &&& end.outcome() == Some(Ok::<(), i32>(())) <==> statuses.len() >= calls.len() && (
            forall|i: int| 0 <= i < calls.len() ==> #[trigger] statuses[i] == ESP_OK)
            &&& end.outcome() == Some(Ok::<(), i32>(())) ==> end.made == calls.len()
        }),
{
    lemma_leading_successes(statuses);
    lemma_play(TransactionState::fresh(calls), statuses);
}

/// A transaction stops at its first failing call: it reports that call's
/// status, and no later call is made.
pub proof fn law_first_failure_ends_the_transaction(
    calls: Seq<DriverCall>,
    statuses: Seq<i32>,
    k: int,
)
    requires
        0 <= k < calls.len(),
        k < statuses.len(),
        statuses[k] != ESP_OK,
        forall|i: int| 0 <= i < k ==> #[trigger] statuses[i] == ESP_OK,
    ensures
        TransactionState::fresh(calls).play(statuses).outcome() == Some(
            Err::<(), i32>(statuses[k]),
        ),
        TransactionState::fresh(calls).play(statuses).made == k + 1,
{
    lemma_leading_successes(statuses);
    lemma_play(TransactionState::fresh(calls), statuses);
}

/// The calls that are made are those between where the transaction stood and
/// where it ended.
proof fn lemma_made_calls(s: TransactionState, statuses: Seq<i32>)
    requires
        s.made <= s.calls.len(),
    ensures
        s.made <= s.play(statuses).made <= s.calls.len(),
        s.made_calls(statuses) == s.calls.subrange(
            s.made as int,
            s.play(statuses).made as int,
        ),
    decreases statuses.len(),
{
    if statuses.len() != 0 && s.is_pending() {
        let next = s.step(statuses[0]);
        lemma_made_calls(next, statuses.drop_first());
        assert(s.made_calls(statuses) =~= s.calls.subrange(
            s.made as int,
            s.play(statuses).made as int,
        ));
    } else {
        assert(s.made_calls(statuses) =~= s.calls.subrange(
            s.made as int,
            s.play(statuses).made as int,
        ));
    }
}

/// Where nothing fails, a transaction asks for its own calls, unchanged and in
/// order: for as many as were answered, and for no more than there are.
pub proof fn law_calls_are_made_unchanged_and_in_order(
    calls: Seq<DriverCall>,
    statuses: Seq<i32>,
)
    requires
        forall|i: int|
            0 <= i < calls.len() && i < statuses.len() ==> #[trigger] statuses[i] == ESP_OK,
    ensures
        statuses.len() >= calls.len() ==> TransactionState::fresh(calls).made_calls(statuses)
            == calls,
        statuses.len() < calls.len() ==> TransactionState::fresh(calls).made_calls(statuses)
            == calls.take(statuses.len() as int),
{
    let s = TransactionState::fresh(calls);
    lemma_leading_successes(statuses);
    lemma_play(s, statuses);
    lemma_made_calls(s, statuses);
    assert(statuses.len() >= calls.len() ==> s.made_calls(statuses) =~= calls);
    assert(statuses.len() < calls.len() ==> s.made_calls(statuses) =~= calls.take(
        statuses.len() as int,
    ));
}

/// Where a call fails, a transaction has asked for the calls up to that one,
/// unchanged and in order, and asks for no other.
pub proof fn law_no_call_is_made_after_a_failure(
    calls: Seq<DriverCall>,
    statuses: Seq<i32>,
    k: int,
)
    requires
        0 <= k < calls.len(),
        k < statuses.len(),
        statuses[k] != ESP_OK,
        forall|i: int| 0 <= i < k ==> #[trigger] statuses[i] == ESP_OK,
    ensures
        TransactionState::fresh(calls).made_calls(statuses) == calls.take(k + 1),
{
    let s = TransactionState::fresh(calls);
    law_first_failure_ends_the_transaction(calls, statuses, k);
    lemma_made_calls(s, statuses);
    assert(s.made_calls(statuses) =~= calls.take(k + 1));
}

} // verus!
