use buoyant_esp32p4::ppa::client::Client;
use buoyant_esp32p4::ppa::driver::{ByteRange, DriverCall, FillColorMode, CACHE_LINE};
use buoyant_esp32p4::ppa::fill::PpaFillTarget;
use buoyant_esp32p4::ppa::psram::{MemoryCaps, MemoryFill, PsramBuffer};

#[test]
fn new_asks_for_aligned_external_memory() {
    let request = PsramBuffer::new(1000);
    assert_eq!(request.align, CACHE_LINE);
    assert_eq!(request.align, 64);
    assert_eq!(request.size, 1000);
    assert_eq!(request.caps, MemoryCaps::Spiram);
    assert!(!request.zeroed);
}

#[test]
fn refused_allocation_gives_no_buffer() {
    assert!(PsramBuffer::new(64).finish(0).is_none());
    assert!(PsramBuffer::new_zeroed(64).finish(0).is_none());
}

#[test]
fn granted_buffer_lies_where_the_allocator_put_it() {
    let granted = PsramBuffer::new(4096).finish(0x4800_0040).unwrap();
    assert_eq!(granted.fill, None);
    let mut buffer = granted.buffer;
    assert_eq!(buffer.as_ptr(), 0x4800_0040);
    assert_eq!(buffer.as_ptr_mut(), 0x4800_0040);
    assert_eq!(buffer.size(), 4096);
    let range = ByteRange { addr: 0x4800_0040, size: 4096 };
    assert_eq!(buffer.as_slice(), range);
    assert_eq!(buffer.as_mut_slice(), range);
    assert_eq!(buffer.zero(), MemoryFill { range, value: 0 });
}

#[test]
fn zeroed_buffer_is_filled_from_end_to_end() {
    let granted = PsramBuffer::new_zeroed(256).finish(0x4800_0080).unwrap();
    let fill = granted.fill.unwrap();
    assert_eq!(fill.value, 0);
    assert_eq!(fill.range, ByteRange { addr: 0x4800_0080, size: 256 });
    assert_eq!(fill.range, granted.buffer.as_slice());
}

#[test]
fn buffer_stays_in_place_on_a_cache_line() {
    let mut buffer = PsramBuffer::new_zeroed(100).finish(0x4800_00c0).unwrap().buffer;
    let start = buffer.as_ptr();
    assert_eq!(start, 0x4800_00c0);
    for _ in 0..3 {
        let _ = buffer.zero();
        let _ = buffer.as_mut_slice();
        assert_eq!(buffer.as_ptr_mut(), start);
        assert_eq!(buffer.size(), 100);
        assert_eq!(buffer.as_ptr(), start);
        assert_eq!(buffer.as_slice(), ByteRange { addr: start, size: 100 });
    }
    assert_eq!(start % 64, 0);
}

#[test]
fn granted_buffer_can_be_bound_to_a_target() {
    let client = Client::new_fill().finish(0, 5).unwrap();
    let buffer = PsramBuffer::new(32).finish(0x4800_0040).unwrap().buffer;
    let target = PpaFillTarget::new(
        &client,
        buffer.as_ptr(),
        buffer.size(),
        4,
        4,
        FillColorMode::Rgb565,
    );
    match target.clear(0).pending() {
        Some(DriverCall::Fill { fill, .. }) => {
            assert_eq!(fill.out.buffer, 0x4800_0040);
            assert_eq!(fill.out.buffer_size, 32);
        }
        _ => panic!("no fill"),
    }
}
