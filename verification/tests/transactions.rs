use buoyant_esp32p4::ppa::cache::{msync_flush, msync_invalidate};
use buoyant_esp32p4::ppa::client::{Client, Operation, OperationCodes};
use buoyant_esp32p4::ppa::driver::{
    esp_result, ByteRange, DriverCall, FillColorMode, FillConfig, OutColorMode, OutPicture,
    SyncDirection, TransMode, Transaction, ESP_OK,
};

fn client(handle: usize) -> Client {
    Client::new_fill().finish(ESP_OK, handle).unwrap()
}

/// Makes the transaction's calls with the given statuses; returns the calls
/// that were made and what it came to.
fn play(mut t: Transaction, statuses: &[i32]) -> (Vec<DriverCall>, Option<Result<(), i32>>) {
    let mut made = Vec::new();
    for status in statuses {
        match t.pending() {
            Some(call) => {
                made.push(call);
                t.complete(*status);
            }
            None => break,
        }
    }
    (made, t.outcome())
}

fn some_fill() -> FillConfig {
    FillConfig {
        out: OutPicture {
            buffer: 0x4800_0000,
            buffer_size: 512,
            pic_w: 16,
            pic_h: 16,
            block_offset_x: 1,
            block_offset_y: 2,
            color_mode: OutColorMode::Fill(FillColorMode::Rgb565),
            yuv_range: 0,
            yuv_std: 0,
        },
        fill_block_w: 3,
        fill_block_h: 4,
        fill_color_val: 0xF800,
        mode: TransMode::NonBlocking,
    }
}

#[test]
fn status_zero_is_success_and_all_others_are_errors() {
    assert_eq!(esp_result(0), Ok(()));
    assert_eq!(esp_result(0x102), Err(0x102));
    assert_eq!(esp_result(-1), Err(-1));
}

#[test]
fn operations_map_to_the_drivers_numbers() {
    let codes = OperationCodes { srm: 7, blend: 8, fill: 9 };
    assert_eq!(Operation::Srm.raw(&codes), 7);
    assert_eq!(Operation::Blend.raw(&codes), 8);
    assert_eq!(Operation::Fill.raw(&codes), 9);
}

#[test]
fn clients_are_registered_for_one_operation() {
    let r = Client::new(Operation::Blend, 5);
    assert_eq!(r.oper_type, Operation::Blend);
    assert_eq!(r.max_pending_trans_num, 5);
    assert_eq!(r.data_burst_length, 0);
    assert_eq!(Client::new_fill(), Client::new(Operation::Fill, 1));
    assert_eq!(Client::new_blend(), Client::new(Operation::Blend, 1));
    assert_eq!(Client::new_srm(), Client::new(Operation::Srm, 1));
}

#[test]
fn registration_gives_the_handle_or_the_error() {
    assert_eq!(Client::new_fill().finish(ESP_OK, 0x3FC0_1234).unwrap().raw(), 0x3FC0_1234);
    assert_eq!(Client::new_fill().finish(0x101, 0x3FC0_1234).unwrap_err(), 0x101);
}

#[test]
fn submitting_is_one_call_to_the_client() {
    let fill = some_fill();
    let (made, outcome) = play(client(11).do_fill(&fill), &[0]);
    assert_eq!(made, vec![DriverCall::Fill { client: 11, fill }]);
    assert_eq!(outcome, Some(Ok(())));

    let (made, outcome) = play(client(12).do_blend(0x4000), &[0x103]);
    assert_eq!(made, vec![DriverCall::Blend { client: 12, blend: 0x4000 }]);
    assert_eq!(outcome, Some(Err(0x103)));
}

#[test]
fn flush_and_invalidate_name_range_and_direction() {
    let range = ByteRange { addr: 0x4800_0000, size: 100 };
    let (made, outcome) = play(msync_flush(range.addr, range.size), &[0]);
    let direction = SyncDirection::CacheToMemory;
    assert_eq!(made, vec![DriverCall::CacheSync { range, direction }]);
    assert_eq!(direction.flags(), 0);
    assert_eq!(outcome, Some(Ok(())));

    let (made, outcome) = play(msync_invalidate(range.addr, range.size), &[0x102]);
    let direction = SyncDirection::MemoryToCache;
    assert_eq!(made, vec![DriverCall::CacheSync { range, direction }]);
    assert_eq!(direction.flags(), 1);
    assert_eq!(outcome, Some(Err(0x102)));
}

#[test]
fn outcome_is_open_while_a_call_is_pending() {
    let (made, outcome) = play(msync_flush(64, 64), &[]);
    assert!(made.is_empty());
    assert_eq!(outcome, None);
}
