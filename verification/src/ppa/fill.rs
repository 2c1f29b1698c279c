//! Solid fills of a framebuffer.

use vstd::prelude::*;

use crate::ppa::cache::{invalidate_call, msync_invalidate};
use crate::ppa::client::{Client, Operation};
use crate::ppa::device::{fill_format, Device, Surface};
use crate::ppa::driver::{
    ByteRange, DriverCall, FillColorMode, FillConfig, OutColorMode, OutPicture, TransMode,
    Transaction, TransactionState, CACHE_LINE,
};

verus! {

/// What a [`PpaFillTarget`] is bound to.
pub ghost struct FillTargetState {
    pub client: usize,
    pub framebuffer: ByteRange,
    pub width: u32,
    pub height: u32,
    pub color_mode: FillColorMode,
}

impl FillTargetState {
    /// Whether the framebuffer starts on a cache line, as the PPA requires of
    /// every buffer that it touches.
    pub open spec fn aligned(self) -> bool {
        self.framebuffer.addr % CACHE_LINE == 0
    }

    /// The framebuffer as a picture in memory.
    pub open spec fn surface(self) -> Surface {
        Surface {
            addr: self.framebuffer.addr as int,
            size: self.framebuffer.size as int,
            width: self.width as int,
            height: self.height as int,
            format: fill_format(self.color_mode),
            yuv_range: 0,
            yuv_std: 0,
        }
    }

    /// Whether `calls`, where they succeed, write `value` to every pixel of the
    /// block `[x, x + w) x [y, y + h)` of the framebuffer, and to nothing else,
    /// whatever was there before. The driver takes buffers of up to 32 bits of
    /// size.
    pub open spec fn fills(
        self,
        calls: Seq<DriverCall>,
        x: int,
        y: int,
        w: int,
        h: int,
        value: int,
    ) -> bool {
        forall|d: Device, s: Surface, px: int, py: int|
            self.framebuffer.size <= u32::MAX && d.serves(self.client, Operation::Fill)
                ==> #[trigger] d.after_all(calls).pixel(s, px, py) == (if s == self.surface() && x
                <= px < x + w && y <= py < y + h {
                value
            } else {
                d.pixel(s, px, py)
            })
    }

    /// The fill of the block `[x, x + w) x [y, y + h)` with `fill_val`, in
    /// blocking mode.
    pub open spec fn fill_config(self, x: u32, y: u32, w: u32, h: u32, fill_val: u32) -> FillConfig {
        FillConfig {
            out: OutPicture {
                buffer: self.framebuffer.addr,
                buffer_size: self.framebuffer.size as u32,
                pic_w: self.width,
                pic_h: self.height,
                block_offset_x: x,
                block_offset_y: y,
                color_mode: OutColorMode::Fill(self.color_mode),
                yuv_range: 0,
                yuv_std: 0,
            },
            fill_block_w: w,
            fill_block_h: h,
            fill_color_val: fill_val,
            mode: TransMode::Blocking,
        }
    }

    /// The calls of a fill of the entire framebuffer.
    pub open spec fn clear_calls(self, fill_val: u32) -> Seq<DriverCall> {
        self.fill_calls(0, 0, self.width, self.height, fill_val)
    }

    /// The calls of a fill: submit it, then drop the framebuffer's cache lines.
    pub open spec fn fill_calls(self, x: u32, y: u32, w: u32, h: u32, fill_val: u32) -> Seq<
        DriverCall,
    > {
        seq![
            DriverCall::Fill {
                client: self.client,
                fill: self.fill_config(x, y, w, h, fill_val),
            },
            invalidate_call(self.framebuffer),
        ]
    }
}

/// A framebuffer that the fill engine writes into: a client registered for
/// fills, and the buffer's address, size in bytes, dimensions in pixels and
/// pixel format, which stay the same from frame to frame.
#[derive(Debug)]
pub struct PpaFillTarget<'a> {
    client: &'a Client,
    framebuffer_ptr: usize,
    framebuffer_bytes: usize,
    width: u32,
    height: u32,
    color_mode: FillColorMode,
}

impl<'a> View for PpaFillTarget<'a> {
    type V = FillTargetState;

    closed spec fn view(&self) -> FillTargetState {
        FillTargetState {
            client: self.client@,
            framebuffer: ByteRange { addr: self.framebuffer_ptr, size: self.framebuffer_bytes },
            width: self.width,
            height: self.height,
            color_mode: self.color_mode,
        }
    }
}

impl<'a> PpaFillTarget<'a> {
    #[verifier::type_invariant]
    spec fn framebuffer_is_aligned(self) -> bool {
        self@.aligned()
    }

    /// Binds a fill client to a framebuffer, which starts on a cache line.
    pub fn new(
        client: &'a Client,
        framebuffer_ptr: usize,
        framebuffer_bytes: usize,
        width: u32,
        height: u32,
        color_mode: FillColorMode,
    ) -> (r: Self)
        requires
            framebuffer_ptr % CACHE_LINE == 0,
        ensures
            r@ == (FillTargetState {
                client: client@,
                framebuffer: ByteRange { addr: framebuffer_ptr, size: framebuffer_bytes },
                width,
                height,
                color_mode,
            }),
    {
        PpaFillTarget { client, framebuffer_ptr, framebuffer_bytes, width, height, color_mode }
    }

    /// Fills the entire framebuffer with `fill_val`, a pixel in the
    /// framebuffer's format.
    pub fn clear(&self, fill_val: u32) -> (r: Transaction)
        ensures
            r@ == TransactionState::fresh(
                self@.fill_calls(0, 0, self@.width, self@.height, fill_val),
            ),
            r@ == TransactionState::fresh(self@.clear_calls(fill_val)),
            self@.fills(
                r@.calls,
                0,
                0,
                self@.width as int,
                self@.height as int,
                fill_val as int,
            ),
            self@.aligned(),
    {
        self.fill_rect(0, 0, self.width, self.height, fill_val)
    }

    /// Fills the block `[x, x + w) x [y, y + h)` of the framebuffer with
    /// `fill_val`. The block is not clipped: the driver rejects one that leaves
    /// the framebuffer.
    pub fn fill_rect(&self, x: u32, y: u32, w: u32, h: u32, fill_val: u32) -> (r: Transaction)
        ensures
            r@ == TransactionState::fresh(self@.fill_calls(x, y, w, h, fill_val)),
            self@.fills(r@.calls, x as int, y as int, w as int, h as int, fill_val as int),
            self@.aligned(),
    {
        proof {
            use_type_invariant(self);
        }
        let cfg = FillConfig {
            out: OutPicture {
                buffer: self.framebuffer_ptr,
                buffer_size: #[verifier::truncate]
                (self.framebuffer_bytes as u32),
                pic_w: self.width,
                pic_h: self.height,
                block_offset_x: x,
                block_offset_y: y,
                color_mode: OutColorMode::Fill(self.color_mode),
                yuv_range: 0,
                yuv_std: 0,
            },
            fill_block_w: w,
            fill_block_h: h,
            fill_color_val: fill_val,
            mode: TransMode::Blocking,
        };
        let r = self.client.do_fill(&cfg).followed_by(
            msync_invalidate(self.framebuffer_ptr, self.framebuffer_bytes),
        );
        assert(r@.calls =~= self@.fill_calls(x, y, w, h, fill_val));
        proof {
            law_fill_writes_the_value_to_the_block(self@, x, y, w, h, fill_val);
        }
        r
    }
}

/// A fill that succeeds leaves exactly `fill_val` in every pixel of the block
/// `[x, x + w) x [y, y + h)` of the framebuffer, in every color mode, and every
/// other pixel, of the framebuffer and of all other pictures, as it was.
pub proof fn law_fill_writes_the_value_to_the_block(
    t: FillTargetState,
    x: u32,
    y: u32,
    w: u32,
    h: u32,
    fill_val: u32,
)
    ensures
        t.fills(
            t.fill_calls(x, y, w, h, fill_val),
            x as int,
            y as int,
            w as int,
            h as int,
            fill_val as int,
        ),
{
    let calls = t.fill_calls(x, y, w, h, fill_val);
    assert forall|d: Device, s: Surface, px: int, py: int|
        t.framebuffer.size <= u32::MAX && d.serves(
            t.client,
            Operation::Fill,
        ) implies #[trigger] d.after_all(calls).pixel(s, px, py) == (if s == t.surface() && x <= px
        < x + w && y <= py < y + h {
        fill_val as int
    } else {
        d.pixel(s, px, py)
    }) by {
        reveal_with_fuel(Device::after_all, 3);
        assert(calls.drop_last().last() == calls[0]);
        assert(calls.drop_last().drop_last() =~= Seq::empty());
        assert(d.after_all(calls) == d.after(calls[0]).after(calls[1]));
    }
}

/// A clear that succeeds leaves exactly `fill_val` in every pixel of the
/// framebuffer, and all other pictures as they were.
pub proof fn law_clear_writes_the_value_everywhere(
    t: FillTargetState,
    fill_val: u32,
    d: Device,
    px: int,
    py: int,
)
    requires
        t.framebuffer.size <= u32::MAX,
        d.serves(t.client, Operation::Fill),
        0 <= px < t.width,
        0 <= py < t.height,
    ensures
        d.after_all(t.clear_calls(fill_val)).pixel(t.surface(), px, py) == fill_val,
        forall|s: Surface, qx: int, qy: int|
            s != t.surface() ==> #[trigger] d.after_all(t.clear_calls(fill_val)).pixel(s, qx, qy)
                == d.pixel(s, qx, qy),
{
    law_fill_writes_the_value_to_the_block(t, 0, 0, t.width, t.height, fill_val);
}

/// The last fill of a pixel decides: after two fills that succeed, a pixel of
/// the second block holds the second value, a pixel of the first block alone
/// the first, and any other pixel what it held.
pub proof fn law_later_fill_covers_earlier(
    t: FillTargetState,
    a: (u32, u32, u32, u32),
    first: u32,
    b: (u32, u32, u32, u32),
    second: u32,
    d: Device,
    px: int,
    py: int,
)
    requires
        t.framebuffer.size <= u32::MAX,
        d.serves(t.client, Operation::Fill),
    ensures
        ({
            let once = d.after_all(t.fill_calls(a.0, a.1, a.2, a.3, first));
            let twice = once.after_all(t.fill_calls(b.0, b.1, b.2, b.3, second));
            let in_a = a.0 <= px < a.0 + a.2 && a.1 <= py < a.1 + a.3;
            let in_b = b.0 <= px < b.0 + b.2 && b.1 <= py < b.1 + b.3;
            twice.pixel(t.surface(), px, py) == (if in_b {
                second as int
            } else if in_a {
                first as int
            } else {
                d.pixel(t.surface(), px, py)
            })
        }),
{
    law_fill_writes_the_value_to_the_block(t, a.0, a.1, a.2, a.3, first);
    law_fill_writes_the_value_to_the_block(t, b.0, b.1, b.2, b.3, second);
    let calls = t.fill_calls(a.0, a.1, a.2, a.3, first);
    lemma_clients_stay(d, calls);
}

/// Calls do not register clients.
proof fn lemma_clients_stay(d: Device, calls: Seq<DriverCall>)
    ensures
        d.after_all(calls).clients == d.clients,
    decreases calls.len(),
{
    if calls.len() != 0 {
        lemma_clients_stay(d, calls.drop_last());
    }
}

/// A clear writes every pixel of the picture, and no other.
pub proof fn law_clear_covers_the_picture(t: FillTargetState, fill_val: u32, px: int, py: int)
    ensures
        t.fill_config(0, 0, t.width, t.height, fill_val).covers(px, py) <==> 0 <= px < t.width && 0
            <= py < t.height,
{
}

} // verus!
