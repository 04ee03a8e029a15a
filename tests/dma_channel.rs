use bcm2837_hal::bus::{bus_address, cpu_address, ALIAS_4_L2_COHERENT};
use bcm2837_hal::channel::{
    Channel, Command, DmaError, Phase, Sequence, TransferError, CS_ABORT, CS_ACTIVE, CS_ERROR,
    CS_RESET, DEBUG_LITE, DEBUG_READ_ERROR, DEBUG_READ_LAST_NOT_SET_ERROR,
};
use bcm2837_hal::dma::{ControlBlock, ControlBlockConfig, TransferLength};
use bcm2837_hal::pmem::PMem;

fn full_config() -> ControlBlockConfig {
    ControlBlockConfig {
        int_enable: true,
        transfer_length: TransferLength::Mode2D(0x1234, 0x3FFF),
        wait_for_resp: true,
        dest_inc: false,
        dest_width_128: true,
        dest_dreq: false,
        dest_ignore: true,
        src_inc: true,
        src_width_128: false,
        src_dreq: true,
        src_ignore: false,
        burst_length: 0xF,
        peripheral_map: 0x15,
        waits: 0x1F,
        no_wide_bursts: true,
    }
}

#[test]
fn split_sizes_sum_and_ranges_touch() {
    let mut r = PMem::new(0x8000_0000, 0x0100_0000, 4096);
    let front = r.split(1000);
    assert_eq!(front.size() + r.size(), 4096);
    assert_eq!((front.vaddr(), front.paddr(), front.size()), (0x8000_0000, 0x0100_0000, 1000));
    assert_eq!((r.vaddr(), r.paddr(), r.size()), (0x8000_0000 + 1000, 0x0100_0000 + 1000, 3096));
    assert_eq!(front.vaddr() + front.size() as u64, r.vaddr());
    assert_eq!(front.paddr() + front.size() as u32, r.paddr());
}

#[test]
fn split_at_zero_gives_empty_front() {
    let mut r = PMem::new(0x8000_0000, 0x0100_0000, 64);
    let front = r.split(0);
    assert_eq!(front.size(), 0);
    assert_eq!((r.vaddr(), r.paddr(), r.size()), (0x8000_0000, 0x0100_0000, 64));
    let last = r.split(63);
    assert_eq!((last.size(), r.size(), r.paddr()), (63, 1, 0x0100_0000 + 63));
}

#[test]
fn reduce_and_bounds_check() {
    let mut r = PMem::new(0x8000_0000, 0x0100_0000, 100);
    r.reduce_to(40);
    assert_eq!((r.vaddr(), r.paddr(), r.size()), (0x8000_0000, 0x0100_0000, 40));
    assert!(r.holds(10, 4));
    assert!(!r.holds(11, 4));
    assert!(r.holds(1, 40));
    assert!(!r.holds(1, 41));
    assert!(r.holds(usize::MAX, 0));
    assert!(!r.holds(usize::MAX, 8));
}

#[test]
fn bus_address_is_idempotent() {
    for &p in [0u32, 0x0010_0000, 0x3C10_0000, 0x4000_0000, 0xC000_1234].iter() {
        assert_eq!(bus_address(bus_address(p)), bus_address(p));
    }
    assert_eq!(bus_address(0x3C10_0000), 0x7C10_0000);
    let r = PMem::new(0x8000_0000, 0x3C10_0000, 16);
    assert_eq!(r.bus_paddr(), 0x7C10_0000);
    assert_eq!(cpu_address(r.bus_paddr()), 0x3C10_0000);
    assert_eq!(cpu_address(0xC000_1234), 0x1234);
}

#[test]
fn control_word_round_trip() {
    let c = full_config();
    let mut cb = ControlBlock::new();
    cb.config(&c, 0x10, 0x20, 0xFFFC, 8, 0x40);
    assert_eq!(cb.decoded_config(), c);
    assert_eq!(
        cb.info,
        0x1 | 0x2 | 0x8 | 0x20 | 0x80 | 0x100 | 0x400 | (0xF << 12) | (0x15 << 16) | (0x1F << 21) | (1 << 26)
    );
    assert_eq!((cb.src, cb.dst, cb.next), (0x4000_0010, 0x4000_0020, 0x40));
    assert_eq!(cb.stride, 0xFFFC | (8 << 16));

    let linear = ControlBlockConfig {
        transfer_length: TransferLength::ModeLinear(0x3FFF_FFFF),
        int_enable: false,
        ..c
    };
    cb.config(&linear, 0x10, 0x20, 0xFFFC, 8, 0);
    assert_eq!(cb.decoded_config(), linear);
    assert_eq!((cb.length, cb.stride), (0x3FFF_FFFF, 0));
    assert_eq!(ControlBlockConfig::default().transfer_length, TransferLength::ModeLinear(0));
    assert_eq!(u32::from(&ControlBlockConfig::default()), 0);
}

#[test]
fn burst_length_lands_in_bits_12_to_15() {
    let c = ControlBlockConfig { burst_length: 4, ..ControlBlockConfig::default() };
    assert_eq!(u32::from(&c), 4 << 12);
}

#[test]
fn rows_are_stored_minus_one() {
    // 480 rows are passed, and stored, as 479.
    let mut cb = ControlBlock::new();
    cb.set_2d_mode_length(3200, 479);
    assert_eq!(cb.length, 0x01DF_0C80);
    assert_eq!((cb.info, cb.stride, cb.next), (0, 0, 0));
    assert_eq!(cb.length >> 16, 479);
    assert_eq!(cb.length & 0xFFFF, 3200);
    // A single row is stored as 0.
    cb.set_2d_mode_length(16, 0);
    assert_eq!(cb.length, 16);
    cb.set_2d_mode_length(0xFFFF, 0x3FFF);
    assert_eq!(cb.length, 0x3FFF_FFFF);
    let c = ControlBlockConfig { transfer_length: TransferLength::Mode2D(40, 9), ..ControlBlockConfig::default() };
    cb.config(&c, 0, 0, 0, 0, 0);
    assert_eq!(cb.length, 40 | (9 << 16));
    assert_eq!((cb.info >> 1) & 1, 1);
    cb.set_length(0xFFFF_FFFF);
    assert_eq!(cb.length, 0x3FFF_FFFF);
    cb.set_stride(0xFFF0, 0x0010);
    assert_eq!(cb.stride, 0x0010_FFF0);
}

#[test]
fn init_and_store_control_block() {
    let mut cb = ControlBlock::new();
    cb.config(&full_config(), 1, 2, 3, 4, 5);
    let mut words = vec![9u32; 12];
    cb.store(&mut words);
    assert_eq!(&words[..8], &[cb.info, cb.src, cb.dst, cb.length, cb.stride, 5, 0, 0]);
    assert_eq!(&words[8..], &[9, 9, 9, 9]);
    cb.init();
    assert_eq!(cb, ControlBlock::new());
}

#[test]
fn channel_flags() {
    let ch = Channel { cs: CS_ACTIVE, debug: DEBUG_LITE | (7 << 8) };
    assert!(ch.is_lite());
    assert_eq!(ch.dma_id(), 7);
    assert!(ch.is_busy());
    assert!(!ch.errors());
    assert_eq!(ch.transfer_error(), None);
    let idle = Channel { cs: 0, debug: 0 };
    assert!(!idle.is_lite() && !idle.is_busy());
}

#[test]
fn each_error_condition_is_reported() {
    let none = TransferError { error: false, read_last_not_set: false, fifo: false, read: false, outstanding_writes: 0 };
    let cases = [
        (Channel { cs: CS_ERROR, debug: 0 }, TransferError { error: true, ..none }),
        (Channel { cs: 0, debug: DEBUG_READ_LAST_NOT_SET_ERROR }, TransferError { read_last_not_set: true, ..none }),
        (Channel { cs: 0, debug: DEBUG_READ_ERROR }, TransferError { read: true, ..none }),
        (Channel { cs: 0, debug: 3 << 4 }, TransferError { outstanding_writes: 3, ..none }),
    ];
    for (ch, e) in cases.iter() {
        assert!(ch.errors());
        assert_eq!(ch.transfer_error(), Some(*e));
    }
}

#[test]
fn reset_writes_bit_and_waits_for_it_to_clear() {
    let mut seq = Channel::reset(5);
    let set = Channel { cs: CS_RESET, debug: 0 };
    assert!(matches!(seq.step(&set), Command::WriteCs(CS_RESET)));
    assert!(matches!(seq.step(&set), Command::Poll));
    assert!(matches!(seq.step(&set), Command::Poll));
    assert!(!seq.is_finished());
    assert!(matches!(seq.step(&Channel { cs: 0, debug: 0 }), Command::Done(Ok(()))));
    assert!(seq.is_finished());
    assert_eq!(seq.polls_left, 3);
}

#[test]
fn abort_then_reset() {
    let mut seq = Channel::abort(5);
    let idle = Channel { cs: 0, debug: 0 };
    assert!(matches!(seq.step(&idle), Command::WriteCs(CS_ABORT)));
    assert!(matches!(seq.step(&Channel { cs: CS_ABORT, debug: 0 }), Command::Poll));
    assert!(matches!(seq.step(&idle), Command::WriteCs(CS_RESET)));
    assert!(matches!(seq.step(&idle), Command::Done(Ok(()))));
}

#[test]
fn stuck_lane_times_out() {
    let busy = Channel { cs: CS_ACTIVE, debug: 0 };
    let mut seq = Channel::start(0x100, 2).unwrap();
    assert!(matches!(seq.step(&busy), Command::Poll));
    assert!(matches!(seq.step(&busy), Command::Poll));
    assert!(matches!(seq.step(&busy), Command::Done(Err(DmaError::Timeout))));
    assert_eq!(seq.phase, Phase::Failed(DmaError::Timeout));
    assert!(matches!(seq.step(&Channel { cs: 0, debug: 0 }), Command::Done(Err(DmaError::Timeout))));
}

#[test]
fn transfer_waits_for_idle_then_starts() {
    let busy = Channel { cs: CS_ACTIVE, debug: 0 };
    let idle = Channel { cs: 0, debug: 0 };
    let mut seq = Channel::start(0x0010_0000, 10).unwrap();
    assert!(matches!(seq.step(&busy), Command::Poll));
    match seq.step(&idle) {
        Command::Start { conblk_ad, cs } => {
            assert_eq!(conblk_ad, 0x0010_0000 | ALIAS_4_L2_COHERENT);
            assert_eq!(cs, CS_ACTIVE);
        }
        other => panic!("expected a start, got {:?}", other),
    }
    assert!(matches!(seq.step(&busy), Command::Poll));
    assert!(matches!(seq.step(&idle), Command::Done(Ok(()))));
    assert_eq!(seq, Sequence { phase: Phase::Succeeded, control_block: 0x4010_0000, polls_left: 8 });
}

#[test]
fn wait_only_waits() {
    let mut seq = Channel::wait(1);
    assert!(matches!(seq.step(&Channel { cs: CS_ACTIVE, debug: 0 }), Command::Poll));
    assert!(matches!(seq.step(&Channel { cs: 0, debug: 2 }), Command::Done(Ok(()))));
}
