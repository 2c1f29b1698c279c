use buoyant_esp32p4::geometry::{Rect, Size};
use buoyant_esp32p4::ppa::client::Client;
use buoyant_esp32p4::ppa::draw::{Color565, DrawJob, DrawStep, PpaDrawTarget};
use buoyant_esp32p4::ppa::driver::{DriverCall, FillColorMode, FillConfig, ESP_OK};
use buoyant_esp32p4::ppa::fill::PpaFillTarget;
use embedded_graphics::pixelcolor::raw::{RawData, RawU16};
use embedded_graphics::pixelcolor::{Rgb565, RgbColor};

const DISPLAY: Size = Size { width: 720, height: 1280 };
const RED: Color565 = Color565 { r: 31, g: 0, b: 0 };

fn client() -> Client {
    Client::new_fill().finish(ESP_OK, 3).unwrap()
}

fn target(c: &Client) -> PpaFillTarget<'_> {
    PpaFillTarget::new(c, 0x4800_0040, 720 * 1280 * 2, 720, 1280, FillColorMode::Rgb565)
}

/// Makes the job's calls with the given statuses; returns the fill that was
/// submitted and the step that ends the job.
fn play(mut job: DrawJob, statuses: &[i32]) -> (Option<FillConfig>, DrawStep) {
    let mut submitted = None;
    for status in statuses {
        if let DrawStep::Call(call) = job.next() {
            if let DriverCall::Fill { fill, .. } = call {
                submitted = Some(fill);
            }
            job.complete(*status);
        }
    }
    (submitted, job.next())
}

fn fill(area: Rect, min: Option<u32>, statuses: &[i32]) -> (Option<FillConfig>, DrawStep) {
    let c = client();
    let t = target(&c);
    let mut display = ();
    let mut surface = PpaDrawTarget::new(&mut display, &t);
    if let Some(n) = min {
        surface = surface.with_min_pixels_for_ppa(n);
    }
    play(surface.fill_solid(DISPLAY, &area, RED), statuses)
}

fn area(x: i32, y: i32, width: u32, height: u32) -> Rect {
    Rect { x, y, width, height }
}

#[test]
fn fill_of_the_threshold_is_accelerated() {
    let (submitted, end) = fill(area(100, 200, 64, 64), None, &[0, 0]);
    let fill = submitted.unwrap();
    assert_eq!(fill.out.block_offset_x, 100);
    assert_eq!(fill.out.block_offset_y, 200);
    assert_eq!(fill.fill_block_w, 64);
    assert_eq!(fill.fill_block_h, 64);
    assert_eq!(fill.fill_color_val, 0xF800);
    assert_eq!(end, DrawStep::Done);
}

#[test]
fn fill_below_the_threshold_is_software() {
    assert_eq!(fill(area(0, 0, 4095, 1), None, &[]).1, DrawStep::Software);
    assert_eq!(fill(area(0, 0, 63, 65), None, &[]).1, DrawStep::Software);
    assert_eq!(fill(area(0, 0, 32, 6), None, &[]).1, DrawStep::Software);
}

#[test]
fn threshold_can_be_changed() {
    assert_eq!(fill(area(0, 0, 10, 10), Some(100), &[0, 0]).1, DrawStep::Done);
    assert_eq!(fill(area(0, 0, 10, 10), Some(101), &[]).1, DrawStep::Software);
    assert_eq!(fill(area(5, 5, 0, 0), Some(0), &[0, 0]).1, DrawStep::Done);
    assert_eq!(fill(area(0, 0, 720, 1280), Some(u32::MAX), &[]).1, DrawStep::Software);
}

#[test]
fn fill_off_the_display_is_software() {
    assert_eq!(fill(area(-1, 0, 100, 100), None, &[]).1, DrawStep::Software);
    assert_eq!(fill(area(0, -1, 100, 100), None, &[]).1, DrawStep::Software);
    assert_eq!(fill(area(621, 0, 100, 100), None, &[]).1, DrawStep::Software);
    assert_eq!(fill(area(0, 1181, 100, 100), None, &[]).1, DrawStep::Software);
    assert_eq!(fill(area(620, 1180, 100, 100), None, &[0, 0]).1, DrawStep::Done);
}

#[test]
fn fill_with_far_edges_beyond_any_coordinate_is_software() {
    let huge = area(i32::MAX, i32::MAX, u32::MAX, u32::MAX);
    assert_eq!(fill(huge, None, &[]).1, DrawStep::Software);
    assert_eq!(fill(area(1, 1, u32::MAX, 1), None, &[]).1, DrawStep::Software);
}

#[test]
fn whole_display_is_accelerated() {
    let (submitted, end) = fill(area(0, 0, 720, 1280), None, &[0, 0]);
    assert_eq!(submitted.unwrap().fill_block_w, 720);
    assert_eq!(end, DrawStep::Done);
}

#[test]
fn failed_acceleration_falls_back_to_software() {
    let (submitted, end) = fill(area(0, 0, 100, 100), None, &[0x102]);
    assert!(submitted.is_some());
    assert_eq!(end, DrawStep::Software);
    assert_eq!(fill(area(0, 0, 100, 100), None, &[0, 0x103]).1, DrawStep::Software);
}

#[test]
fn clear_is_accelerated_and_falls_back() {
    let c = client();
    let t = target(&c);
    let mut display = ();
    let surface = PpaDrawTarget::new(&mut display, &t);
    let (submitted, end) = play(surface.clear(RED), &[0, 0]);
    let fill = submitted.unwrap();
    assert_eq!((fill.out.block_offset_x, fill.out.block_offset_y), (0, 0));
    assert_eq!((fill.fill_block_w, fill.fill_block_h), (720, 1280));
    assert_eq!(fill.fill_color_val, 0xF800);
    assert_eq!(end, DrawStep::Done);
    assert_eq!(play(surface.clear(RED), &[-1]).1, DrawStep::Software);
}

#[test]
fn surface_lends_the_display_that_it_wraps() {
    let c = client();
    let t = target(&c);
    let mut display = vec![1, 2, 3];
    let mut surface = PpaDrawTarget::new(&mut display, &t);
    assert_eq!(surface.inner().len(), 3);
    surface.inner_mut().push(4);
    assert_eq!(surface.inner().len(), 4);
    assert_eq!(display, vec![1, 2, 3, 4]);
}

#[test]
fn fill_values_are_the_display_colors_words() {
    for color in [
        Rgb565::BLACK,
        Rgb565::RED,
        Rgb565::GREEN,
        Rgb565::BLUE,
        Rgb565::CYAN,
        Rgb565::WHITE,
        Rgb565::new(17, 42, 5),
    ] {
        let planned = Color565 { r: color.r(), g: color.g(), b: color.b() };
        assert_eq!(planned.fill_value(), RawU16::from(color).into_inner() as u32);
    }
    assert_eq!(Color565 { r: 17, g: 42, b: 5 }.fill_value(), 0x8D45);
    assert_eq!(Color565 { r: 0, g: 63, b: 31 }.fill_value(), 0x07FF);
    assert_eq!(Color565 { r: 32, g: 64, b: 33 }.fill_value(), 0x0001);
}
