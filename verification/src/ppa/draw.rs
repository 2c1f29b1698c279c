//! A drawing surface that hands large solid fills to the accelerator.

use vstd::prelude::*;

use crate::geometry::{Rect, Size};
use crate::ppa::client::Operation;
use crate::ppa::device::{Device, Surface};
use crate::ppa::driver::{
    law_calls_are_made_unchanged_and_in_order, law_first_failure_ends_the_transaction,
    law_success_means_every_call_succeeded, DriverCall, Transaction, TransactionState, ESP_OK,
};
use crate::ppa::fill::{law_fill_writes_the_value_to_the_block, FillTargetState, PpaFillTarget};

verus! {

/// Pixel count from which on a fill is handed to the accelerator unless the
/// surface says otherwise. Below it the cost of setting up a transaction
/// outweighs the gain.
pub const DEFAULT_MIN_PIXELS: u32 = 4096;

/// A color with five bits of red, six of green and five of blue. Higher bits of
/// a channel do not count.
#[derive(Copy, Clone, Debug, PartialEq, Eq, Structural)]
pub struct Color565 {
    pub r: u8,
    pub g: u8,
    pub b: u8,
}

impl Color565 {
    /// The pixel as a 16-bit word: red in the top five bits, green in the
    /// middle six, blue in the low five.
    pub open spec fn word(self) -> int {
        (self.r % 32) * 2048 + (self.g % 64) * 32 + self.b % 32
    }

    /// The pixel as a fill value, packed into the low 16 bits.
    pub fn fill_value(self) -> (v: u32)
        ensures
            v == self.word(),
            v <= 0xFFFF,
    {
        rgb565_storage(self.r, self.g, self.b) as u32
    }
}

/// The storage word of `embedded_graphics`' `Rgb565` with the given channels:
/// `Rgb565::new`, converted to `RawU16`, and taken out with `into_inner`. The
/// contract claims that `new` drops the bits of a channel beyond its width and
/// that the word holds red, green and blue from the top down.
#[verifier::external_body]
fn rgb565_storage(r: u8, g: u8, b: u8) -> (word: u16)
    ensures
        word == (Color565 { r, g, b }).word(),
{
    let color = embedded_graphics::pixelcolor::Rgb565::new(r, g, b);
    let raw = embedded_graphics::pixelcolor::raw::RawU16::from(color);
    embedded_graphics::pixelcolor::raw::RawData::into_inner(raw)
}

/// What to do next for a [`DrawJob`].
#[derive(Copy, Clone, Debug, PartialEq, Eq, Structural)]
pub enum DrawStep {
    /// Make the call and report its status.
    Call(DriverCall),
    /// Draw through the display itself; the job is over with that.
    Software,
    /// The accelerator has drawn; the job is over.
    Done,
}

/// A drawing operation on its way: the accelerator's transaction, or `None`
/// where the display draws by itself from the start.
pub type DrawState = Option<TransactionState>;

/// The next step of a job in state `s`: the pending call, or, when there is
/// none, software unless the accelerator succeeded.
pub open spec fn next_step(s: DrawState) -> DrawStep {
    match s {
        None => DrawStep::Software,
        Some(t) => if t.is_pending() {
            DrawStep::Call(t.calls[t.made as int])
        } else if t.status == ESP_OK {
            DrawStep::Done
        } else {
            DrawStep::Software
        },
    }
}

/// The state of a job after the call that it asked for returned `status`.
pub open spec fn draw_after(s: DrawState, status: i32) -> DrawState {
    match s {
        Some(t) => Some(t.step(status)),
        None => None,
    }
}

/// The calls that a job in state `s` has made when they return `statuses` one
/// after another.
pub open spec fn job_calls(s: DrawState, statuses: Seq<i32>) -> Seq<DriverCall>
    decreases statuses.len(),
{
    match next_step(s) {
        DrawStep::Call(call) => if statuses.len() == 0 {
            Seq::empty()
        } else {
            seq![call] + job_calls(draw_after(s, statuses[0]), statuses.drop_first())
        },
        _ => Seq::empty(),
    }
}

/// The step that a job in state `s` has come to when its calls return
/// `statuses` one after another.
pub open spec fn job_end(s: DrawState, statuses: Seq<i32>) -> DrawStep
    decreases statuses.len(),
{
    match next_step(s) {
        DrawStep::Call(call) => if statuses.len() == 0 {
            DrawStep::Call(call)
        } else {
            job_end(draw_after(s, statuses[0]), statuses.drop_first())
        },
        end => end,
    }
}

/// A drawing operation that the accelerator carries out where it can and the
/// display itself where it cannot.
#[derive(Debug)]
pub struct DrawJob {
    transaction: Option<Transaction>,
}

impl View for DrawJob {
    type V = DrawState;

    closed spec fn view(&self) -> DrawState {
        match self.transaction {
            Some(t) => Some(t@),
            None => None,
        }
    }
}

impl DrawJob {
    /// What to do next.
    pub fn next(&self) -> (r: DrawStep)
        ensures
            r == next_step(self@),
    {
        match &self.transaction {
            None => DrawStep::Software,
            Some(t) => match t.pending() {
                Some(call) => DrawStep::Call(call),
                None => match t.outcome() {
                    Some(Ok(())) => DrawStep::Done,
                    _ => DrawStep::Software,
                },
            },
        }
    }

    /// Records that the call which `next` asked for returned `status`.
    pub fn complete(&mut self, status: i32)
        requires
            next_step(old(self)@) is Call,
        ensures
            final(self)@ == Some(old(self)@->0.step(status)),
            final(self)@ == draw_after(old(self)@, status),
    {
        match &mut self.transaction {
            Some(t) => {
                t.complete(status);
            },
            None => {},
        }
    }
}

/// A drawing surface over an RGB565 display that shares its pixels with a fill
/// target. Solid fills of enough pixels go to the accelerator; everything else
/// is the display's own.
#[derive(Debug)]
pub struct PpaDrawTarget<'a, D> {
    /// The display.
    pub inner: &'a mut D,
    /// The fill target.
    pub fill_target: &'a PpaFillTarget<'a>,
    /// The pixel count from which on a fill goes to the accelerator.
    pub min_pixels_for_ppa: u32,
}

impl<'a, D> PpaDrawTarget<'a, D> {
    /// Wraps `inner`, whose pixels lie in the memory that `fill_target` is
    /// bound to.
    pub fn new(inner: &'a mut D, fill_target: &'a PpaFillTarget<'a>) -> (r: Self)
        ensures
            *r.inner == *old(inner),
            *final(r.inner) == *final(inner),
            r.fill_target == fill_target,
            r.min_pixels_for_ppa == DEFAULT_MIN_PIXELS,
    {
        PpaDrawTarget { inner, fill_target, min_pixels_for_ppa: DEFAULT_MIN_PIXELS }
    }

    /// The same surface with another threshold.
    pub fn with_min_pixels_for_ppa(self, n: u32) -> (r: Self)
        ensures
            *r.inner == *old(self.inner),
            *final(r.inner) == *final(self.inner),
            r.fill_target == self.fill_target,
            r.min_pixels_for_ppa == n,
    {
        PpaDrawTarget {
            inner: self.inner,
            fill_target: self.fill_target,
            min_pixels_for_ppa: n,
        }
    }

    /// Borrows the display.
    pub fn inner(&self) -> (r: &D)
        ensures
            *r == *old(self.inner),
    {
        self.inner
    }

    /// Borrows the display for writing.
    pub fn inner_mut(&mut self) -> (r: &mut D)
        ensures
            *r == *old(self).inner,
            *final(self).inner == *final(r),
            *final(final(self).inner) == *final(old(self).inner),
            final(self).fill_target == old(self).fill_target,
            final(self).min_pixels_for_ppa == old(self).min_pixels_for_ppa,
    {
        self.inner
    }

    /// Whether a fill of `area` on a display of this size is the accelerator's:
    /// it has at least the threshold's number of pixels and lies on the display.
    pub open spec fn accelerates(&self, display: Size, area: Rect) -> bool {
        area.pixels() >= self.min_pixels_for_ppa && area.within(Rect::whole(display))
    }

    /// The job of filling `area` with `color`.
    pub open spec fn fill_job(&self, display: Size, area: Rect, color: Color565) -> DrawState {
        if self.accelerates(display, area) {
            Some(
                TransactionState::fresh(
                    self.fill_target@.fill_calls(
                        area.x as u32,
                        area.y as u32,
                        area.width,
                        area.height,
                        color.word() as u32,
                    ),
                ),
            )
        } else {
            None
        }
    }

    /// The job of filling the whole display with `color`.
    pub open spec fn clear_job(&self, color: Color565) -> DrawState {
        Some(TransactionState::fresh(self.fill_target@.clear_calls(color.word() as u32)))
    }

    /// Fills `area` with `color`. The accelerator fills the same pixels of its
    /// framebuffer; where it does not apply or fails, the display fills them.
    pub fn fill_solid(&self, display: Size, area: &Rect, color: Color565) -> (r: DrawJob)
        ensures
            !self.accelerates(display, *area) ==> r@ is None,
            self.accelerates(display, *area) ==> r@ == Some(
                TransactionState::fresh(
                    self.fill_target@.fill_calls(
                        area.x as u32,
                        area.y as u32,
                        area.width,
                        area.height,
                        color.word() as u32,
                    ),
                ),
            ),
            r@ == self.fill_job(display, *area, color),
            r@ matches Some(t) ==> self.fill_target@.fills(
                t.calls,
                area.x as int,
                area.y as int,
                area.width as int,
                area.height as int,
                color.word(),
            ),
    {
        assert(0 <= area.width * area.height <= u32::MAX * u32::MAX) by (nonlinear_arith)
            requires
                area.width <= u32::MAX,
                area.height <= u32::MAX,
        ;
        let pixels: u64 = area.width as u64 * area.height as u64;
        if pixels < self.min_pixels_for_ppa as u64 || !area.lies_on(display) {
            return DrawJob { transaction: None };
        }
        DrawJob {
            transaction: Some(
                self.fill_target.fill_rect(
                    area.x as u32,
                    area.y as u32,
                    area.width,
                    area.height,
                    color.fill_value(),
                ),
            ),
        }
    }

    /// Fills the whole display with `color`, the accelerator first.
    pub fn clear(&self, color: Color565) -> (r: DrawJob)
        ensures
            r@ == Some(
                TransactionState::fresh(
                    self.fill_target@.fill_calls(
                        0,
                        0,
                        self.fill_target@.width,
                        self.fill_target@.height,
                        color.word() as u32,
                    ),
                ),
            ),
            r@ == self.clear_job(color),
            r@ matches Some(t) && self.fill_target@.fills(
                t.calls,
                0,
                0,
                self.fill_target@.width as int,
                self.fill_target@.height as int,
                color.word(),
            ),
    {
        DrawJob { transaction: Some(self.fill_target.clear(color.fill_value())) }
    }
}

/// A fill value keeps the color: red, green and blue can be read back out of it,
/// each to the width of its channel, and nothing else is in it.
pub proof fn law_word_keeps_the_channels(c: Color565)
    ensures
        0 <= c.word() <= 0xFFFF,
        c.word() / 2048 == c.r % 32,
        c.word() / 32 % 64 == c.g % 64,
        c.word() % 32 == c.b % 32,
{
}

/// A fill goes to the accelerator exactly where it has at least the threshold's
/// number of pixels and neither starts before the display nor ends beyond it.
pub proof fn law_large_fills_on_the_display_are_accelerated<D>(
    target: PpaDrawTarget<'_, D>,
    display: Size,
    area: Rect,
)
    ensures
        target.accelerates(display, area) <==> {
            &&& area.width * area.height >= target.min_pixels_for_ppa
            &&& 0 <= area.x
            &&& 0 <= area.y
            &&& area.x + area.width <= display.width
            &&& area.y + area.height <= display.height
        },
{
}

/// While a job has a call to make, that call is its transaction's own: the calls
/// that a job makes and what it comes to are those of the transaction, whatever
/// the driver answers.
pub proof fn law_job_makes_its_transactions_calls(t: TransactionState, statuses: Seq<i32>)
    ensures
        job_calls(Some(t), statuses) == t.made_calls(statuses),
        job_end(Some(t), statuses) == next_step(Some(t.play(statuses))),
    decreases statuses.len(),
{
    if statuses.len() != 0 && t.is_pending() {
        law_job_makes_its_transactions_calls(t.step(statuses[0]), statuses.drop_first());
    }
}

/// The job of a transaction whose calls all succeed makes exactly those calls, in
/// order, and is then done; if one fails, the display draws; a job without a
/// transaction makes no call, and the display draws.
pub proof fn law_job_is_done_exactly_where_all_its_calls_succeed(
    calls: Seq<DriverCall>,
    statuses: Seq<i32>,
)
    requires
        statuses.len() >= calls.len(),
    ensures
        ({
            let job: DrawState = Some(TransactionState::fresh(calls));
            let all_succeeded = forall|i: int|
                0 <= i < calls.len() ==> #[trigger] statuses[i] == ESP_OK;
            &&& all_succeeded ==> job_calls(job, statuses) == calls && job_end(job, statuses)
                == DrawStep::Done
            &&& !all_succeeded ==> job_end(job, statuses) == DrawStep::Software
            &&& job_calls(None, statuses) == Seq::<DriverCall>::empty()
            &&& job_end(None, statuses) == DrawStep::Software
        }),
{
    law_job_makes_its_transactions_calls(TransactionState::fresh(calls), statuses);
    law_drawing_is_never_lost(calls, statuses);
    if forall|i: int| 0 <= i < calls.len() ==> #[trigger] statuses[i] == ESP_OK {
        law_calls_are_made_unchanged_and_in_order(calls, statuses);
    }
}

/// A solid fill comes out in its color, whatever the driver answers: where the
/// job is done, every pixel of `area` in the framebuffer holds exactly the
/// color's word and every other pixel what it held; else the display draws it,
/// and the accelerator was not asked where the area is small or off the display.
pub proof fn law_solid_fill_comes_out_in_its_color<D>(
    target: PpaDrawTarget<'_, D>,
    display: Size,
    area: Rect,
    color: Color565,
    statuses: Seq<i32>,
    d: Device,
    s: Surface,
    px: int,
    py: int,
)
    requires
        statuses.len() >= 2,
        target.fill_target@.framebuffer.size <= u32::MAX,
        d.serves(target.fill_target@.client, Operation::Fill),
    ensures
        ({
            let job = target.fill_job(display, area, color);
            let end = job_end(job, statuses);
            &&& end == DrawStep::Done || end == DrawStep::Software
            &&& end == DrawStep::Done <==> {
                &&& area.width * area.height >= target.min_pixels_for_ppa
                &&& 0 <= area.x && area.x + area.width <= display.width
                &&& 0 <= area.y && area.y + area.height <= display.height
                &&& statuses[0] == ESP_OK
                &&& statuses[1] == ESP_OK
            }
            &&& end == DrawStep::Done ==> d.after_all(job_calls(job, statuses)).pixel(s, px, py)
                == (if s == target.fill_target@.surface() && area.contains(px, py) {
                (color.r % 32) * 2048 + (color.g % 64) * 32 + color.b % 32
            } else {
                d.pixel(s, px, py)
            })
            &&& !target.accelerates(display, area) ==> job_calls(job, statuses) == Seq::<
                DriverCall,
            >::empty()
        }),
{
    let t = target.fill_target@;
    let calls = t.fill_calls(
        area.x as u32,
        area.y as u32,
        area.width,
        area.height,
        color.word() as u32,
    );
    law_job_is_done_exactly_where_all_its_calls_succeed(calls, statuses);
    law_fill_writes_the_value_to_the_block(
        t,
        area.x as u32,
        area.y as u32,
        area.width,
        area.height,
        color.word() as u32,
    );
    law_word_keeps_the_channels(color);
}

/// A clear comes out in its color, whatever the driver answers: where the job is
/// done, every pixel of the framebuffer holds exactly the color's word, and all
/// other pictures are as they were; else the display clears itself.
pub proof fn law_clear_comes_out_in_its_color<D>(
    target: PpaDrawTarget<'_, D>,
    color: Color565,
    statuses: Seq<i32>,
    d: Device,
    s: Surface,
    px: int,
    py: int,
)
    requires
        statuses.len() >= 2,
        target.fill_target@.framebuffer.size <= u32::MAX,
        d.serves(target.fill_target@.client, Operation::Fill),
    ensures
        ({
            let t = target.fill_target@;
            let job = target.clear_job(color);
            let end = job_end(job, statuses);
            &&& end == DrawStep::Done || end == DrawStep::Software
            &&& end == DrawStep::Done <==> statuses[0] == ESP_OK && statuses[1] == ESP_OK
            &&& end == DrawStep::Done ==> d.after_all(job_calls(job, statuses)).pixel(s, px, py)
                == (if s == t.surface() && 0 <= px < t.width && 0 <= py < t.height {
                (color.r % 32) * 2048 + (color.g % 64) * 32 + color.b % 32
            } else {
                d.pixel(s, px, py)
            })
        }),
{
    let t = target.fill_target@;
    law_job_is_done_exactly_where_all_its_calls_succeed(
        t.clear_calls(color.word() as u32),
        statuses,
    );
    law_fill_writes_the_value_to_the_block(t, 0, 0, t.width, t.height, color.word() as u32);
    law_word_keeps_the_channels(color);
}

/// A fill that goes to the accelerator writes the area's pixels and no others,
/// and all of them lie on the display.
pub proof fn law_accelerated_fill_covers_the_area(
    t: FillTargetState,
    display: Size,
    area: Rect,
    fill_val: u32,
    px: int,
    py: int,
)
    requires
        area.within(Rect::whole(display)),
    ensures
        t.fill_config(area.x as u32, area.y as u32, area.width, area.height, fill_val).covers(
            px,
            py,
        ) <==> area.contains(px, py),
        area.contains(px, py) ==> 0 <= px < display.width && 0 <= py < display.height,
{
}

/// A drawing operation is never lost: whatever the driver answers, the job that
/// has no call left to make is done by the accelerator where all of its calls
/// succeeded, and otherwise goes to the display, at the first call that failed.
pub proof fn law_drawing_is_never_lost(calls: Seq<DriverCall>, statuses: Seq<i32>)
    requires
        statuses.len() >= calls.len(),
    ensures
        ({
            let end: DrawState = Some(TransactionState::fresh(calls).play(statuses));
            let all_succeeded = forall|i: int|
                0 <= i < calls.len() ==> #[trigger] statuses[i] == ESP_OK;
            &&& all_succeeded ==> next_step(end) == DrawStep::Done
            &&& !all_succeeded ==> next_step(end) == DrawStep::Software
        }),
{
    law_success_means_every_call_succeeded(calls, statuses);
    if exists|i: int| 0 <= i < calls.len() && #[trigger] statuses[i] != ESP_OK {
        let i = choose|i: int| 0 <= i < calls.len() && #[trigger] statuses[i] != ESP_OK;
        let k = lemma_first_failure(statuses, i);
        law_first_failure_ends_the_transaction(calls, statuses, k);
    }
}

/// The first failure at or before `i`.
proof fn lemma_first_failure(statuses: Seq<i32>, i: int) -> (k: int)
    requires
        0 <= i < statuses.len(),
        statuses[i] != ESP_OK,
    ensures
        0 <= k <= i,
        statuses[k] != ESP_OK,
        forall|j: int| 0 <= j < k ==> #[trigger] statuses[j] == ESP_OK,
    decreases i,
{
    if exists|j: int| 0 <= j < i && #[trigger] statuses[j] != ESP_OK {
        let j = choose|j: int| 0 <= j < i && #[trigger] statuses[j] != ESP_OK;
        lemma_first_failure(statuses, j)
    } else {
        i
    }
}

} // verus!
