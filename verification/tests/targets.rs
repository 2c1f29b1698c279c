use buoyant_esp32p4::ppa::client::Client;
use buoyant_esp32p4::ppa::driver::{
    AlphaUpdate, ByteRange, DriverCall, FillColorMode, FillConfig, InPicture, OutColorMode,
    OutPicture, Rotation, Scale, SrmColorMode, SrmConfig, SyncDirection, TransMode, Transaction,
    ESP_OK,
};
use buoyant_esp32p4::ppa::fill::PpaFillTarget;
use buoyant_esp32p4::ppa::srm::{srm_bytes_per_pixel, PpaSrmTarget};

const FB: usize = 0x4800_0040;
const FB_BYTES: usize = 720 * 1280 * 2;

fn client(handle: usize) -> Client {
    Client::new_fill().finish(ESP_OK, handle).unwrap()
}

fn play(mut t: Transaction, statuses: &[i32]) -> (Vec<DriverCall>, Option<Result<(), i32>>) {
    let mut made = Vec::new();
    for status in statuses {
        match t.pending() {
            Some(call) => {
                made.push(call);
                t.complete(*status);
            }
            None => break,
        }
    }
    (made, t.outcome())
}

fn flush(addr: usize, size: usize) -> DriverCall {
    DriverCall::CacheSync {
        range: ByteRange { addr, size },
        direction: SyncDirection::CacheToMemory,
    }
}

fn invalidate(addr: usize, size: usize) -> DriverCall {
    DriverCall::CacheSync {
        range: ByteRange { addr, size },
        direction: SyncDirection::MemoryToCache,
    }
}

fn fill_call(x: u32, y: u32, w: u32, h: u32, value: u32) -> DriverCall {
    DriverCall::Fill {
        client: 3,
        fill: FillConfig {
            out: OutPicture {
                buffer: FB,
                buffer_size: 1_843_200,
                pic_w: 720,
                pic_h: 1280,
                block_offset_x: x,
                block_offset_y: y,
                color_mode: OutColorMode::Fill(FillColorMode::Rgb565),
                yuv_range: 0,
                yuv_std: 0,
            },
            fill_block_w: w,
            fill_block_h: h,
            fill_color_val: value,
            mode: TransMode::Blocking,
        },
    }
}

#[test]
fn fill_rect_submits_the_block_and_invalidates_the_framebuffer() {
    let c = client(3);
    let target = PpaFillTarget::new(&c, FB, FB_BYTES, 720, 1280, FillColorMode::Rgb565);
    let (made, outcome) = play(target.fill_rect(10, 20, 30, 40, 0x07E0), &[0, 0]);
    assert_eq!(made, vec![fill_call(10, 20, 30, 40, 0x07E0), invalidate(FB, FB_BYTES)]);
    assert_eq!(outcome, Some(Ok(())));
}

#[test]
fn clear_fills_the_whole_framebuffer() {
    let c = client(3);
    let target = PpaFillTarget::new(&c, FB, FB_BYTES, 720, 1280, FillColorMode::Rgb565);
    let (made, _) = play(target.clear(0xFFFF), &[0, 0]);
    assert_eq!(made, vec![fill_call(0, 0, 720, 1280, 0xFFFF), invalidate(FB, FB_BYTES)]);
}

#[test]
fn failed_fill_is_not_followed_by_an_invalidation() {
    let c = client(3);
    let target = PpaFillTarget::new(&c, FB, FB_BYTES, 720, 1280, FillColorMode::Rgb565);
    let (made, outcome) = play(target.clear(0), &[0x102, 0]);
    assert_eq!(made.len(), 1);
    assert_eq!(outcome, Some(Err(0x102)));
}

#[test]
fn failed_invalidation_fails_the_fill() {
    let c = client(3);
    let target = PpaFillTarget::new(&c, FB, FB_BYTES, 720, 1280, FillColorMode::Rgb565);
    let (made, outcome) = play(target.clear(0), &[0, 0x103]);
    assert_eq!(made.len(), 2);
    assert_eq!(outcome, Some(Err(0x103)));
}

#[test]
fn pixels_take_two_three_or_four_bytes() {
    assert_eq!(srm_bytes_per_pixel(SrmColorMode::Rgb565), 2);
    assert_eq!(srm_bytes_per_pixel(SrmColorMode::Rgb888), 3);
    assert_eq!(srm_bytes_per_pixel(SrmColorMode::Argb8888), 4);
    assert_eq!(srm_bytes_per_pixel(SrmColorMode::Other(99)), 2);
}

fn srm_call(mode: SrmColorMode, src: usize, size: (u32, u32), dst: (u32, u32, u32, u32)) -> DriverCall {
    DriverCall::Srm {
        client: 4,
        srm: SrmConfig {
            input: InPicture {
                buffer: src,
                pic_w: size.0,
                pic_h: size.1,
                block_w: size.0,
                block_h: size.1,
                block_offset_x: 0,
                block_offset_y: 0,
                color_mode: mode,
                yuv_range: 0,
                yuv_std: 0,
            },
            out: OutPicture {
                buffer: FB,
                buffer_size: 1_843_200,
                pic_w: 720,
                pic_h: 1280,
                block_offset_x: dst.0,
                block_offset_y: dst.1,
                color_mode: OutColorMode::Srm(mode),
                yuv_range: 0,
                yuv_std: 0,
            },
            rotation_angle: Rotation::Angle0,
            scale_x: Scale { numerator: dst.2, denominator: size.0 },
            scale_y: Scale { numerator: dst.3, denominator: size.1 },
            mirror_x: false,
            mirror_y: false,
            rgb_swap: false,
            byte_swap: false,
            alpha_update_mode: AlphaUpdate::NoChange,
            mode: TransMode::Blocking,
        },
    }
}

#[test]
fn blit_scaled_flushes_submits_and_invalidates() {
    let c = client(4);
    let target = PpaSrmTarget::new(&c, FB, FB_BYTES, 720, 1280, SrmColorMode::Rgb888);
    let t = target.blit_scaled(0x4900_0000, 100, 50, 8, 9, 400, 200);
    let (made, outcome) = play(t, &[0, 0, 0, 0]);
    assert_eq!(
        made,
        vec![
            flush(0x4900_0000, 15_000),
            flush(FB, FB_BYTES),
            srm_call(SrmColorMode::Rgb888, 0x4900_0000, (100, 50), (8, 9, 400, 200)),
            invalidate(FB, FB_BYTES),
        ]
    );
    assert_eq!(outcome, Some(Ok(())));
}

#[test]
fn blit_is_a_scaled_blit_to_the_same_size() {
    let c = client(4);
    let target = PpaSrmTarget::new(&c, FB, FB_BYTES, 720, 1280, SrmColorMode::Rgb565);
    let (plain, _) = play(target.blit(0x4900_0000, 32, 16, 1, 2), &[0; 4]);
    let (scaled, _) = play(target.blit_scaled(0x4900_0000, 32, 16, 1, 2, 32, 16), &[0; 4]);
    assert_eq!(plain, scaled);
    assert_eq!(plain[0], flush(0x4900_0000, 1024));
}

#[test]
fn blit_stops_at_the_first_failing_call() {
    let c = client(4);
    let target = PpaSrmTarget::new(&c, FB, FB_BYTES, 720, 1280, SrmColorMode::Argb8888);
    for k in 0..4 {
        let mut statuses = [0; 4];
        statuses[k] = 0x105;
        let (made, outcome) = play(target.blit(0x4900_0000, 2, 2, 0, 0), &statuses);
        assert_eq!(made.len(), k + 1);
        assert_eq!(outcome, Some(Err(0x105)));
    }
}

#[test]
fn blit_of_an_empty_source_reads_nothing() {
    let c = client(4);
    let target = PpaSrmTarget::new(&c, FB, FB_BYTES, 720, 1280, SrmColorMode::Rgb565);
    let (made, _) = play(target.blit_scaled(0x4900_0000, 0, 7, 0, 0, 10, 10), &[0; 4]);
    assert_eq!(made[0], flush(0x4900_0000, 0));
}
