//! Image blits into a framebuffer, scaled or not.

use vstd::prelude::*;

use crate::ppa::cache::{flush_call, invalidate_call, msync_flush, msync_invalidate};
use crate::ppa::client::{Client, Operation};
use crate::ppa::device::{srm_format, Device, Pixels, Surface};
use crate::ppa::driver::{
    AlphaUpdate, ByteRange, DriverCall, InPicture, OutColorMode, OutPicture, Rotation, Scale,
    SrmColorMode, SrmConfig, TransMode, Transaction, TransactionState, CACHE_LINE,
};

verus! {

/// Bytes that a pixel of `mode` takes. A mode other than the three RGB formats
/// counts as two bytes; the driver rejects buffers of the wrong size.
pub open spec fn bytes_per_pixel(mode: SrmColorMode) -> nat {
    match mode {
        SrmColorMode::Rgb565 => 2,
        SrmColorMode::Rgb888 => 3,
        SrmColorMode::Argb8888 => 4,
        SrmColorMode::Other(_) => 2,
    }
}

/// Bytes per pixel of a scale-rotate-mirror color mode.
pub fn srm_bytes_per_pixel(mode: SrmColorMode) -> (r: usize)
    ensures
        r == bytes_per_pixel(mode),
{
    match mode {
        SrmColorMode::Rgb565 => 2,
        SrmColorMode::Rgb888 => 3,
        SrmColorMode::Argb8888 => 4,
        SrmColorMode::Other(_) => 2,
    }
}

/// What a [`PpaSrmTarget`] is bound to.
pub ghost struct SrmTargetState {
    pub client: usize,
    pub framebuffer: ByteRange,
    pub width: u32,
    pub height: u32,
    pub color_mode: SrmColorMode,
}

/// Where a blit reads and writes: `src_w x src_h` pixels from `src_ptr` on go
/// to the `dst_w x dst_h` pixels at `(dst_x, dst_y)`.
pub ghost struct Blit {
    pub src_ptr: usize,
    pub src_w: u32,
    pub src_h: u32,
    pub dst_x: u32,
    pub dst_y: u32,
    pub dst_w: u32,
    pub dst_h: u32,
}

impl SrmTargetState {
    /// Whether the framebuffer starts on a cache line, as the PPA requires of
    /// every buffer that it touches.
    pub open spec fn aligned(self) -> bool {
        self.framebuffer.addr % CACHE_LINE == 0
    }

    /// Size in bytes of the blit's source, a packed grid of pixels in the
    /// target's color mode.
    pub open spec fn source_size(self, b: Blit) -> int {
        b.src_w * b.src_h * bytes_per_pixel(self.color_mode)
    }

    /// The source's memory.
    pub open spec fn source(self, b: Blit) -> ByteRange {
        ByteRange { addr: b.src_ptr, size: self.source_size(b) as usize }
    }

    /// The framebuffer as a picture in memory.
    pub open spec fn surface(self) -> Surface {
        Surface {
            addr: self.framebuffer.addr as int,
            size: self.framebuffer.size as int,
            width: self.width as int,
            height: self.height as int,
            format: srm_format(self.color_mode),
            yuv_range: 0,
            yuv_std: 0,
        }
    }

    /// A packed grid of `w x h` pixels in the target's color mode at address
    /// `ptr`, as a picture in memory.
    pub open spec fn source_surface(self, ptr: usize, w: u32, h: u32) -> Surface {
        Surface {
            addr: ptr as int,
            size: w * h * bytes_per_pixel(self.color_mode),
            width: w as int,
            height: h as int,
            format: srm_format(self.color_mode),
            yuv_range: 0,
            yuv_std: 0,
        }
    }

    /// Whether `calls`, where they succeed, scale the blit's whole source to the
    /// size of its destination and write that to the framebuffer's block
    /// `[dst_x, dst_x + dst_w) x [dst_y, dst_y + dst_h)`, upright, and write
    /// nothing else. A source without a pixel has no scale. The driver takes
    /// buffers of up to 32 bits of size.
    pub open spec fn scales(self, calls: Seq<DriverCall>, b: Blit) -> bool {
        forall|d: Device, s: Surface, px: int, py: int|
            self.framebuffer.size <= u32::MAX && d.serves(self.client, Operation::Srm) && b.src_w
                > 0 && b.src_h > 0 ==> #[trigger] d.after_all(calls).pixel(s, px, py) == (if s
                == self.surface() && b.dst_x <= px < b.dst_x + b.dst_w && b.dst_y <= py < b.dst_y
                + b.dst_h {
                (d.filter)(
                    (d.memory)(self.source_surface(b.src_ptr, b.src_w, b.src_h)),
                    b.src_w as int,
                    b.src_h as int,
                    b.dst_w as int,
                    b.dst_h as int,
                    px - b.dst_x,
                    py - b.dst_y,
                )
            } else {
                d.pixel(s, px, py)
            })
    }

    /// Whether `calls`, where they succeed, copy source pixel `(sx, sy)` to
    /// framebuffer pixel `(dst_x + sx, dst_y + sy)`, for every pixel of the
    /// source, and write nothing else.
    pub open spec fn copies(
        self,
        calls: Seq<DriverCall>,
        src_ptr: usize,
        src_w: u32,
        src_h: u32,
        dst_x: u32,
        dst_y: u32,
    ) -> bool {
        forall|d: Device, s: Surface, px: int, py: int|
            self.framebuffer.size <= u32::MAX && d.serves(self.client, Operation::Srm)
                && d.copies_unscaled() && src_w > 0 && src_h > 0 ==> #[trigger] d.after_all(
                calls,
            ).pixel(s, px, py) == (if s == self.surface() && dst_x <= px < dst_x + src_w && dst_y
                <= py < dst_y + src_h {
                d.pixel(self.source_surface(src_ptr, src_w, src_h), px - dst_x, py - dst_y)
            } else {
                d.pixel(s, px, py)
            })
    }

    /// The blit as an operation: the whole source, scaled by the ratios of the
    /// sizes, neither rotated nor mirrored nor recoloured, in blocking mode.
    pub open spec fn srm_config(self, b: Blit) -> SrmConfig {
        SrmConfig {
            input: InPicture {
                buffer: b.src_ptr,
                pic_w: b.src_w,
                pic_h: b.src_h,
                block_w: b.src_w,
                block_h: b.src_h,
                block_offset_x: 0,
                block_offset_y: 0,
                color_mode: self.color_mode,
                yuv_range: 0,
                yuv_std: 0,
            },
            out: OutPicture {
                buffer: self.framebuffer.addr,
                buffer_size: self.framebuffer.size as u32,
                pic_w: self.width,
                pic_h: self.height,
                block_offset_x: b.dst_x,
                block_offset_y: b.dst_y,
                color_mode: OutColorMode::Srm(self.color_mode),
                yuv_range: 0,
                yuv_std: 0,
            },
            rotation_angle: Rotation::Angle0,
            scale_x: Scale { numerator: b.dst_w, denominator: b.src_w },
            scale_y: Scale { numerator: b.dst_h, denominator: b.src_h },
            mirror_x: false,
            mirror_y: false,
            rgb_swap: false,
            byte_swap: false,
            alpha_update_mode: AlphaUpdate::NoChange,
            mode: TransMode::Blocking,
        }
    }

    /// The calls of a blit onto a block of the source's own size.
    pub open spec fn copy_calls(
        self,
        src_ptr: usize,
        src_w: u32,
        src_h: u32,
        dst_x: u32,
        dst_y: u32,
    ) -> Seq<DriverCall> {
        self.blit_calls(Blit { src_ptr, src_w, src_h, dst_x, dst_y, dst_w: src_w, dst_h: src_h })
    }

    /// The calls of a blit: write the source's and the framebuffer's dirty
    /// cache lines back, submit the operation, drop the framebuffer's lines.
    pub open spec fn blit_calls(self, b: Blit) -> Seq<DriverCall> {
        seq![
            flush_call(self.source(b)),
            flush_call(self.framebuffer),
            DriverCall::Srm { client: self.client, srm: self.srm_config(b) },
            invalidate_call(self.framebuffer),
        ]
    }
}

/// A framebuffer that the scale-rotate-mirror engine blits into: a client
/// registered for that engine, and the buffer's address, size in bytes,
/// dimensions in pixels and pixel format.
#[derive(Debug)]
pub struct PpaSrmTarget<'a> {
    client: &'a Client,
    framebuffer_ptr: usize,
    framebuffer_bytes: usize,
    width: u32,
    height: u32,
    color_mode: SrmColorMode,
}

impl<'a> View for PpaSrmTarget<'a> {
    type V = SrmTargetState;

    closed spec fn view(&self) -> SrmTargetState {
        SrmTargetState {
            client: self.client@,
            framebuffer: ByteRange { addr: self.framebuffer_ptr, size: self.framebuffer_bytes },
            width: self.width,
            height: self.height,
            color_mode: self.color_mode,
        }
    }
}

impl<'a> PpaSrmTarget<'a> {
    #[verifier::type_invariant]
    spec fn framebuffer_is_aligned(self) -> bool {
        self@.aligned()
    }

    /// Binds a scale-rotate-mirror client to a framebuffer, which starts on a
    /// cache line.
    pub fn new(
        client: &'a Client,
        framebuffer_ptr: usize,
        framebuffer_bytes: usize,
        width: u32,
        height: u32,
        color_mode: SrmColorMode,
    ) -> (r: Self)
        requires
            framebuffer_ptr % CACHE_LINE == 0,
        ensures
            r@ == (SrmTargetState {
                client: client@,
                framebuffer: ByteRange { addr: framebuffer_ptr, size: framebuffer_bytes },
                width,
                height,
                color_mode,
            }),
    {
        PpaSrmTarget { client, framebuffer_ptr, framebuffer_bytes, width, height, color_mode }
    }

    /// Copies a source image into the framebuffer at `(dst_x, dst_y)`, pixel
    /// for pixel: a scaled blit onto a block of the source's own size.
    pub fn blit(
        &self,
        src_ptr: usize,
        src_w: u32,
        src_h: u32,
        dst_x: u32,
        dst_y: u32,
    ) -> (r: Transaction)
        requires
            src_w * src_h * bytes_per_pixel(self@.color_mode) <= usize::MAX,
        ensures
            r@ == TransactionState::fresh(
                self@.blit_calls(
                    Blit { src_ptr, src_w, src_h, dst_x, dst_y, dst_w: src_w, dst_h: src_h },
                ),
            ),
            r@ == TransactionState::fresh(self@.copy_calls(src_ptr, src_w, src_h, dst_x, dst_y)),
            self@.copies(r@.calls, src_ptr, src_w, src_h, dst_x, dst_y),
            self@.aligned(),
    {
        proof {
            law_blit_copies_pixel_for_pixel(self@, src_ptr, src_w, src_h, dst_x, dst_y);
        }
        self.blit_scaled(src_ptr, src_w, src_h, dst_x, dst_y, src_w, src_h)
    }

    /// Reads `src_w x src_h` pixels from `src_ptr` on and writes `dst_w x dst_h`
    /// pixels at `(dst_x, dst_y)`. The source is packed, in the target's color
    /// mode, and starts on a cache line.
    pub fn blit_scaled(
        &self,
        src_ptr: usize,
        src_w: u32,
        src_h: u32,
        dst_x: u32,
        dst_y: u32,
        dst_w: u32,
        dst_h: u32,
    ) -> (r: Transaction)
        requires
            src_w * src_h * bytes_per_pixel(self@.color_mode) <= usize::MAX,
        ensures
            r@ == TransactionState::fresh(
                self@.blit_calls(Blit { src_ptr, src_w, src_h, dst_x, dst_y, dst_w, dst_h }),
            ),
            self@.scales(
                r@.calls,
                Blit { src_ptr, src_w, src_h, dst_x, dst_y, dst_w, dst_h },
            ),
            self@.aligned(),
    {
        proof {
            use_type_invariant(self);
        }
        let ghost blit = Blit { src_ptr, src_w, src_h, dst_x, dst_y, dst_w, dst_h };
        let bpp = srm_bytes_per_pixel(self.color_mode);
        assert(src_w * src_h <= src_w * src_h * bpp) by (nonlinear_arith)
            requires
                bpp >= 1,
        ;
        let src_bytes = (src_w as usize) * (src_h as usize) * bpp;

        let cfg = SrmConfig {
            input: InPicture {
                buffer: src_ptr,
                pic_w: src_w,
                pic_h: src_h,
                block_w: src_w,
                block_h: src_h,
                block_offset_x: 0,
                block_offset_y: 0,
                color_mode: self.color_mode,
                yuv_range: 0,
                yuv_std: 0,
            },
            out: OutPicture {
                buffer: self.framebuffer_ptr,
                buffer_size: #[verifier::truncate]
                (self.framebuffer_bytes as u32),
                pic_w: self.width,
                pic_h: self.height,
                block_offset_x: dst_x,
                block_offset_y: dst_y,
                color_mode: OutColorMode::Srm(self.color_mode),
                yuv_range: 0,
                yuv_std: 0,
            },
            rotation_angle: Rotation::Angle0,
            scale_x: Scale { numerator: dst_w, denominator: src_w },
            scale_y: Scale { numerator: dst_h, denominator: src_h },
            mirror_x: false,
            mirror_y: false,
            rgb_swap: false,
            byte_swap: false,
            alpha_update_mode: AlphaUpdate::NoChange,
            mode: TransMode::Blocking,
        };
        let r = msync_flush(src_ptr, src_bytes).followed_by(
            msync_flush(self.framebuffer_ptr, self.framebuffer_bytes),
        ).followed_by(self.client.do_srm(&cfg)).followed_by(
            msync_invalidate(self.framebuffer_ptr, self.framebuffer_bytes),
        );
        assert(r@.calls =~= self@.blit_calls(blit));
        proof {
            law_scaled_blit_fills_the_block_asked_for(self@, blit);
        }
        r
    }
}

/// A pixel takes the bytes that its channels' bits fill: five, six and five of
/// red, green and blue, eight of each, or eight of each and of alpha. Every
/// other mode takes as much as the first.
pub proof fn law_pixels_take_their_channels_bits(raw: u32)
    ensures
        8 * bytes_per_pixel(SrmColorMode::Rgb565) == 5 + 6 + 5,
        8 * bytes_per_pixel(SrmColorMode::Rgb888) == 8 + 8 + 8,
        8 * bytes_per_pixel(SrmColorMode::Argb8888) == 8 + 8 + 8 + 8,
        bytes_per_pixel(SrmColorMode::Other(raw)) == bytes_per_pixel(SrmColorMode::Rgb565),
{
}

/// A scaled blit that succeeds writes its whole source, scaled to
/// `dst_w x dst_h` pixels and upright, to exactly the block
/// `[dst_x, dst_x + dst_w) x [dst_y, dst_y + dst_h)` of the framebuffer, and
/// leaves every other pixel, of the framebuffer and of all other pictures, as
/// it was.
pub proof fn law_scaled_blit_fills_the_block_asked_for(t: SrmTargetState, b: Blit)
    ensures
        t.scales(t.blit_calls(b), b),
{
    let calls = t.blit_calls(b);
    let srm = t.srm_config(b);
    assert forall|d: Device, s: Surface, px: int, py: int|
        t.framebuffer.size <= u32::MAX && d.serves(t.client, Operation::Srm) && b.src_w > 0
            && b.src_h > 0 implies #[trigger] d.after_all(calls).pixel(s, px, py) == (if s
        == t.surface() && b.dst_x <= px < b.dst_x + b.dst_w && b.dst_y <= py < b.dst_y + b.dst_h {
        (d.filter)(
            (d.memory)(t.source_surface(b.src_ptr, b.src_w, b.src_h)),
            b.src_w as int,
            b.src_h as int,
            b.dst_w as int,
            b.dst_h as int,
            px - b.dst_x,
            py - b.dst_y,
        )
    } else {
        d.pixel(s, px, py)
    }) by {
        assert(calls.drop_last() =~= calls.take(3));
        assert(calls.take(3).drop_last() =~= calls.take(2));
        assert(calls.take(2).drop_last() =~= calls.take(1));
        assert(calls.take(1).drop_last() =~= Seq::empty());
        assert(d.after_all(Seq::empty()) == d);
        assert(d.after_all(calls.take(1)) == d);
        assert(d.after_all(calls.take(2)) == d);
        assert(d.after_all(calls.take(3)) == d.after(calls[2]));
        lemma_ratio(b.src_w as int, b.dst_w as int);
        lemma_ratio(b.src_h as int, b.dst_h as int);
        let source: Pixels = (d.memory)(srm.input.surface());
        assert(srm.input.block(source) =~= source);
    }
}

/// An extent scaled by the ratio of another to it is the other.
proof fn lemma_ratio(from: int, to: int)
    requires
        from > 0,
    ensures
        from * to / from == to,
{
    assert(from * to / from == to) by (nonlinear_arith)
        requires
            from > 0,
    ;
}

/// A scaled blit scales by the ratio of the sizes asked for, exactly: the block
/// that is read, times the scale, is the block that is written.
pub proof fn law_scale_is_the_ratio_of_the_sizes(t: SrmTargetState, b: Blit)
    requires
        b.src_w > 0,
        b.src_h > 0,
    ensures
        ({
            let calls = t.blit_calls(b);
            exists|i: int|
                0 <= i < calls.len() && (#[trigger] calls[i] matches DriverCall::Srm {
                    client,
                    srm,
                } && {
                    &&& client == t.client
                    &&& srm.scale_x.denominator > 0
                    &&& srm.scale_y.denominator > 0
                    &&& srm.input.block_w * srm.scale_x.numerator == b.dst_w
                        * srm.scale_x.denominator
                    &&& srm.input.block_h * srm.scale_y.numerator == b.dst_h
                        * srm.scale_y.denominator
                })
        }),
{
    let srm = t.srm_config(b);
    assert(t.blit_calls(b)[2] == DriverCall::Srm { client: t.client, srm });
    assert(b.src_w * b.dst_w == b.dst_w * b.src_w) by (nonlinear_arith);
    assert(b.src_h * b.dst_h == b.dst_h * b.src_h) by (nonlinear_arith);
}

/// A 1:1 blit that succeeds copies source pixel `(sx, sy)` to framebuffer pixel
/// `(dst_x + sx, dst_y + sy)`, for every pixel of the source, and leaves every
/// other pixel, of the framebuffer and of all other pictures, as it was.
pub proof fn law_blit_copies_pixel_for_pixel(
    t: SrmTargetState,
    src_ptr: usize,
    src_w: u32,
    src_h: u32,
    dst_x: u32,
    dst_y: u32,
)
    ensures
        t.copies(
            t.copy_calls(src_ptr, src_w, src_h, dst_x, dst_y),
            src_ptr,
            src_w,
            src_h,
            dst_x,
            dst_y,
        ),
{
    law_scaled_blit_fills_the_block_asked_for(
        t,
        Blit { src_ptr, src_w, src_h, dst_x, dst_y, dst_w: src_w, dst_h: src_h },
    );
}

/// A blit reads its source and leaves it alone, unless it is the framebuffer.
pub proof fn law_blit_leaves_the_source_alone(
    t: SrmTargetState,
    b: Blit,
    d: Device,
    px: int,
    py: int,
)
    requires
        t.framebuffer.size <= u32::MAX,
        d.serves(t.client, Operation::Srm),
        b.src_w > 0,
        b.src_h > 0,
        t.source_surface(b.src_ptr, b.src_w, b.src_h) != t.surface(),
    ensures
        d.after_all(t.blit_calls(b)).pixel(
            t.source_surface(b.src_ptr, b.src_w, b.src_h),
            px,
            py,
        ) == d.pixel(t.source_surface(b.src_ptr, b.src_w, b.src_h), px, py),
{
    law_scaled_blit_fills_the_block_asked_for(t, b);
}

} // verus!
