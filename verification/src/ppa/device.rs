//! What the PPA does with the calls that it is given.
//!
//! A model of the accelerator and of the pixels in memory, independent of how
//! calls are planned. It takes the engines at their word: a fill writes one
//! value over a block, and a scale-rotate-mirror operation writes its scaled,
//! rotated and mirrored input. Pictures are kept apart; of pictures that share
//! memory the model says nothing.

use vstd::prelude::*;

use crate::ppa::client::Operation;
use crate::ppa::driver::{
    AlphaUpdate, DriverCall, FillColorMode, FillConfig, InPicture, OutColorMode, OutPicture,
    Rotation, Scale, SrmColorMode, SrmConfig, TransMode,
};
use crate::ppa::srm::bytes_per_pixel;

verus! {

/// Pixel values by column and row.
pub type Pixels = spec_fn(int, int) -> int;

/// How a picture's pixels are stored.
pub ghost enum PixelFormat {
    Rgb565,
    Rgb888,
    Argb8888,
    /// A format by the fill engine's own number.
    OtherFill(u32),
    /// A format by the scale-rotate-mirror engine's own number.
    OtherSrm(u32),
}

/// The format that the fill engine's color mode stands for.
pub open spec fn fill_format(mode: FillColorMode) -> PixelFormat {
    match mode {
        FillColorMode::Rgb565 => PixelFormat::Rgb565,
        FillColorMode::Rgb888 => PixelFormat::Rgb888,
        FillColorMode::Argb8888 => PixelFormat::Argb8888,
        FillColorMode::Other(raw) => PixelFormat::OtherFill(raw),
    }
}

/// The format that the scale-rotate-mirror engine's color mode stands for.
pub open spec fn srm_format(mode: SrmColorMode) -> PixelFormat {
    match mode {
        SrmColorMode::Rgb565 => PixelFormat::Rgb565,
        SrmColorMode::Rgb888 => PixelFormat::Rgb888,
        SrmColorMode::Argb8888 => PixelFormat::Argb8888,
        SrmColorMode::Other(raw) => PixelFormat::OtherSrm(raw),
    }
}

/// A picture in memory.
pub ghost struct Surface {
    pub addr: int,
    /// In bytes.
    pub size: int,
    pub width: int,
    pub height: int,
    pub format: PixelFormat,
    pub yuv_range: int,
    pub yuv_std: int,
}

impl OutPicture {
    /// The picture in memory that is written.
    pub open spec fn surface(self) -> Surface {
        Surface {
            addr: self.buffer as int,
            size: self.buffer_size as int,
            width: self.pic_w as int,
            height: self.pic_h as int,
            format: match self.color_mode {
                OutColorMode::Fill(mode) => fill_format(mode),
                OutColorMode::Srm(mode) => srm_format(mode),
            },
            yuv_range: self.yuv_range as int,
            yuv_std: self.yuv_std as int,
        }
    }
}

impl InPicture {
    /// The picture in memory that is read, a packed grid of pixels.
    pub open spec fn surface(self) -> Surface {
        Surface {
            addr: self.buffer as int,
            size: self.pic_w * self.pic_h * bytes_per_pixel(self.color_mode),
            width: self.pic_w as int,
            height: self.pic_h as int,
            format: srm_format(self.color_mode),
            yuv_range: self.yuv_range as int,
            yuv_std: self.yuv_std as int,
        }
    }

    /// The block of `pixels` that is read, from its own corner on.
    pub open spec fn block(self, pixels: Pixels) -> Pixels {
        |x: int, y: int| pixels(self.block_offset_x + x, self.block_offset_y + y)
    }
}

impl Scale {
    /// `extent` pixels, scaled.
    pub open spec fn scaled(self, extent: int) -> int {
        extent * self.numerator / (self.denominator as int)
    }
}

impl SrmConfig {
    /// Width of the input block once it is scaled.
    pub open spec fn scaled_w(self) -> int {
        self.scale_x.scaled(self.input.block_w as int)
    }

    /// Height of the input block once it is scaled.
    pub open spec fn scaled_h(self) -> int {
        self.scale_y.scaled(self.input.block_h as int)
    }

    /// Whether the rotation exchanges width and height.
    pub open spec fn is_turned(self) -> bool {
        self.rotation_angle == Rotation::Angle90 || self.rotation_angle == Rotation::Angle270
    }

    /// Width of the written block.
    pub open spec fn out_w(self) -> int {
        if self.is_turned() {
            self.scaled_h()
        } else {
            self.scaled_w()
        }
    }

    /// Height of the written block.
    pub open spec fn out_h(self) -> int {
        if self.is_turned() {
            self.scaled_w()
        } else {
            self.scaled_h()
        }
    }

    /// Whether the operation writes the pixel in column `px` of row `py`.
    pub open spec fn covers(self, px: int, py: int) -> bool {
        &&& self.out.block_offset_x <= px < self.out.block_offset_x + self.out_w()
        &&& self.out.block_offset_y <= py < self.out.block_offset_y + self.out_h()
    }

    /// The pixel of the scaled block that is written to column `px` of row `py`.
    /// Rotation is counter-clockwise, and mirroring comes after it.
    pub open spec fn scaled_pixel(self, px: int, py: int) -> (int, int) {
        let dx = px - self.out.block_offset_x;
        let dy = py - self.out.block_offset_y;
        let x = if self.mirror_x {
            self.out_w() - 1 - dx
        } else {
            dx
        };
        let y = if self.mirror_y {
            self.out_h() - 1 - dy
        } else {
            dy
        };
        match self.rotation_angle {
            Rotation::Angle0 => (x, y),
            Rotation::Angle90 => (self.scaled_w() - 1 - y, x),
            Rotation::Angle180 => (self.scaled_w() - 1 - x, self.scaled_h() - 1 - y),
            Rotation::Angle270 => (y, self.scaled_h() - 1 - x),
        }
    }

    /// Whether pixel values pass through the engine unchanged.
    pub open spec fn keeps_colors(self) -> bool {
        &&& self.input.surface().format == self.out.surface().format
        &&& !self.rgb_swap
        &&& !self.byte_swap
        &&& self.alpha_update_mode == AlphaUpdate::NoChange
    }
}

/// The accelerator, its clients, and the pixels in memory.
pub ghost struct Device {
    /// The operations that handles are registered for.
    pub clients: Map<usize, Operation>,
    pub memory: spec_fn(Surface) -> Pixels,
    /// How the scaler weighs pixels: given a block, its width and height, and
    /// the width and height that it is scaled to, the value of the pixel in a
    /// column and row of the scaled block.
    pub filter: spec_fn(Pixels, int, int, int, int, int, int) -> int,
    /// What becomes of a pixel value under an operation that does not keep
    /// colors.
    pub recolor: spec_fn(SrmConfig, int) -> int,
    /// What the blend described at an address makes of memory.
    pub blend: spec_fn(usize, spec_fn(Surface) -> Pixels) -> (spec_fn(Surface) -> Pixels),
}

impl Device {
    /// The value of a pixel.
    pub open spec fn pixel(self, s: Surface, px: int, py: int) -> int {
        (self.memory)(s)(px, py)
    }

    /// Whether `client` is registered for `op`.
    pub open spec fn serves(self, client: usize, op: Operation) -> bool {
        self.clients.dom().contains(client) && self.clients[client] == op
    }

    /// The device once a client for `op` has been registered under `handle`.
    pub open spec fn registered(self, op: Operation, handle: usize) -> Device {
        Device { clients: self.clients.insert(handle, op), ..self }
    }

    /// Whether scaling by one leaves every pixel of a block as it is.
    pub open spec fn copies_unscaled(self) -> bool {
        forall|block: Pixels, w: int, h: int, x: int, y: int|
            0 <= x < w && 0 <= y < h ==> #[trigger] (self.filter)(block, w, h, w, h, x, y) == block(
                x,
                y,
            )
    }

    /// The value that an operation writes to column `px` of row `py`.
    pub open spec fn srm_value(self, srm: SrmConfig, px: int, py: int) -> int {
        let (x, y) = srm.scaled_pixel(px, py);
        let value = (self.filter)(
            srm.input.block((self.memory)(srm.input.surface())),
            srm.input.block_w as int,
            srm.input.block_h as int,
            srm.scaled_w(),
            srm.scaled_h(),
            x,
            y,
        );
        if srm.keeps_colors() {
            value
        } else {
            (self.recolor)(srm, value)
        }
    }

    /// Memory once a fill that succeeded has returned. Only a blocking operation
    /// is over by then.
    pub open spec fn filled(self, client: usize, fill: FillConfig) -> spec_fn(Surface) -> Pixels {
        |s: Surface|
            |px: int, py: int|
                if s == fill.out.surface() && fill.covers(px, py) && fill.mode
                    == TransMode::Blocking && self.serves(client, Operation::Fill) {
                    fill.fill_color_val as int
                } else {
                    self.pixel(s, px, py)
                }
    }

    /// Memory once a scale-rotate-mirror operation that succeeded has returned.
    pub open spec fn blitted(self, client: usize, srm: SrmConfig) -> spec_fn(Surface) -> Pixels {
        |s: Surface|
            |px: int, py: int|
                if s == srm.out.surface() && srm.covers(px, py) && srm.mode == TransMode::Blocking
                    && self.serves(client, Operation::Srm) {
                    self.srm_value(srm, px, py)
                } else {
                    self.pixel(s, px, py)
                }
    }

    /// The device once `call` has succeeded and returned.
    pub open spec fn after(self, call: DriverCall) -> Device {
        match call {
            DriverCall::Fill { client, fill } => Device {
                memory: self.filled(client, fill),
                ..self
            },
            DriverCall::Srm { client, srm } => Device {
                memory: self.blitted(client, srm),
                ..self
            },
            DriverCall::Blend { client, blend } => if self.serves(client, Operation::Blend) {
                Device { memory: (self.blend)(blend, self.memory), ..self }
            } else {
                self
            },
            DriverCall::CacheSync { .. } => self,
        }
    }

    /// The device once `calls` have succeeded one after another.
    pub open spec fn after_all(self, calls: Seq<DriverCall>) -> Device
        decreases calls.len(),
    {
        if calls.len() == 0 {
            self
        } else {
            self.after_all(calls.drop_last()).after(calls.last())
        }
    }
}

} // verus!
