use dbs_utils::metric::IncMetric;
use rtc_pl031::device::RTCDevice;
use rtc_pl031::machine::Registers;
use rtc_pl031::metrics::Counters;
use rtc_pl031::registers::{
    AMBA_ID_HIGH, AMBA_ID_LOW, RTCCR, RTCICR, RTCIMSC, RTCLR, RTCMIS, RTCMR, RTCRIS,
};

const PL031_ID: [u8; 8] = [0x31, 0x10, 0x04, 0x00, 0x0d, 0xf0, 0x05, 0xb1];

fn host_seconds() -> u32 {
    let v = dbs_utils::time::get_time_ns(dbs_utils::time::ClockType::Real);
    (v / dbs_utils::time::NANOS_PER_SECOND) as u32
}

fn write_word(rtc: &mut RTCDevice, offset: u64, value: u32) {
    rtc.write(offset, &value.to_le_bytes());
}

fn read_word(rtc: &mut RTCDevice, offset: u64) -> u32 {
    let mut data = [0xa5u8; 4];
    rtc.read(offset, &mut data);
    u32::from_le_bytes(data)
}

fn zero_counters() -> Counters {
    Counters { errors: 0, missed_reads: 0, missed_writes: 0 }
}

#[test]
fn test_rtc_read_write_and_event() {
    let mut rtc = RTCDevice::new();
    let mut data = [0; 4];

    // Read and write to the MR register.
    data = 123u32.to_le_bytes();
    rtc.write(RTCMR, &data);
    rtc.read(RTCMR, &mut data);
    let v = u32::from_le_bytes(data);
    assert_eq!(v, 123);

    // Read and write to the LR register. The counter follows the host
    // clock, so the exchange is repeated if a second boundary fell into it.
    let mut attempts = 0;
    loop {
        let v = host_seconds();
        data = v.to_le_bytes();
        rtc.write(RTCLR, &data);
        rtc.read(RTCLR, &mut data);
        let v_read = u32::from_le_bytes(data);
        attempts += 1;
        if host_seconds() != v && attempts < 100 {
            continue;
        }
        assert_eq!(rtc.registers().lr, v);
        assert_eq!(v, v_read);
        break;
    }

    // Read and write to IMSC register.
    // Test with non zero value.
    let non_zero = 1;
    data = u32::to_le_bytes(non_zero);
    rtc.write(RTCIMSC, &data);
    // No raw interrupt is pending, so the line stays off.
    assert!(!rtc.interrupt_line());
    rtc.read(RTCIMSC, &mut data);
    let v = u32::from_le_bytes(data);
    assert_eq!(non_zero & 1, v);

    // Now test with 0.
    data = 0u32.to_le_bytes();
    rtc.write(RTCIMSC, &data);
    rtc.read(RTCIMSC, &mut data);
    let v = u32::from_le_bytes(data);
    assert_eq!(0, v);

    // Read and write to the ICR register.
    data = 1u32.to_le_bytes();
    rtc.write(RTCICR, &data);
    assert!(!rtc.interrupt_line());
    let v_before = u32::from_le_bytes(data);
    let no_errors_before = rtc.metrics.error_count.count();
    rtc.read(RTCICR, &mut data);
    let no_errors_after = rtc.metrics.error_count.count();
    let v = u32::from_le_bytes(data);
    // ICR is a  write only register. Data received should stay equal to data sent.
    assert_eq!(v, v_before);
    assert_eq!(no_errors_after - no_errors_before, 1);

    // Attempts to turn off the RTC should not go through.
    data = 0u32.to_le_bytes();
    rtc.write(RTCCR, &data);
    rtc.read(RTCCR, &mut data);
    let v = u32::from_le_bytes(data);
    assert_eq!(v, 1);

    // Attempts to write beyond the writable space. Using here the space used to read
    // the CID and PID from.
    data = 0u32.to_le_bytes();
    let no_errors_before = rtc.metrics.error_count.count();
    rtc.write(AMBA_ID_LOW, &data);
    let no_errors_after = rtc.metrics.error_count.count();
    assert_eq!(no_errors_after - no_errors_before, 1);
    // However, reading from the AMBA_ID_LOW should succeed upon read.

    let mut data = [0; 4];
    rtc.read(AMBA_ID_LOW, &mut data);
    let index = AMBA_ID_LOW + 3;
    assert_eq!(data[0], PL031_ID[((index - AMBA_ID_LOW) >> 2) as usize]);
}

#[test]
fn new_device_is_reset() {
    let rtc = RTCDevice::new();
    assert_eq!(
        rtc.registers(),
        Registers { lr: 0, offset: 0, mr: 0, imsc: 0, ris: 0 }
    );
    assert_eq!(rtc.metrics.counters(), zero_counters());
    assert!(!rtc.interrupt_line());
}

#[test]
fn match_register_is_plain_storage() {
    let mut rtc = RTCDevice::new();
    for value in [0u32, 1, 123, 0x1234_5678, 0x8000_0000, u32::MAX] {
        write_word(&mut rtc, RTCMR, value);
        assert_eq!(read_word(&mut rtc, RTCMR), value);
        assert_eq!(rtc.registers().mr, value);
    }
    assert_eq!(rtc.metrics.counters(), zero_counters());
}

#[test]
fn match_register_bytes_are_little_endian() {
    let mut rtc = RTCDevice::new();
    rtc.write(RTCMR, &[0x78, 0x56, 0x34, 0x12]);
    assert_eq!(rtc.registers().mr, 0x1234_5678);
    let mut data = [0u8; 4];
    rtc.read(RTCMR, &mut data);
    assert_eq!(data, [0x78, 0x56, 0x34, 0x12]);
}

#[test]
fn match_write_leaves_other_registers() {
    let mut rtc = RTCDevice::new();
    write_word(&mut rtc, RTCIMSC, 1);
    write_word(&mut rtc, RTCMR, 77);
    assert_eq!(
        rtc.registers(),
        Registers { lr: 0, offset: 0, mr: 77, imsc: 1, ris: 0 }
    );
}

#[test]
fn load_register_seeds_counter() {
    let mut rtc = RTCDevice::new();
    let seed = 1_000_000u32;
    let before = host_seconds();
    write_word(&mut rtc, RTCLR, seed);
    let after = host_seconds();
    let registers = rtc.registers();
    assert_eq!(registers.lr, seed);
    assert!(registers.offset <= seed as i64 - before as i64);
    assert!(registers.offset >= seed as i64 - after as i64);
    let got = read_word(&mut rtc, RTCLR);
    assert!(got >= seed);
    assert!(got - seed <= 1 + (host_seconds() - before));
    assert_eq!(rtc.registers(), registers);
    assert_eq!(rtc.metrics.counters(), zero_counters());
}

#[test]
fn counter_of_fresh_device_is_host_clock() {
    let mut rtc = RTCDevice::new();
    let before = host_seconds();
    let got = read_word(&mut rtc, RTCLR);
    let after = host_seconds();
    assert!(before <= got && got <= after);
}

#[test]
fn counter_advances_with_clock() {
    let mut rtc = RTCDevice::new();
    let seed = 5_000u32;
    write_word(&mut rtc, RTCLR, seed);
    let offset = rtc.registers().offset;
    let start = host_seconds();
    while host_seconds() < start + 2 {
        std::hint::spin_loop();
    }
    let now_before = host_seconds();
    let got = read_word(&mut rtc, RTCLR);
    let now_after = host_seconds();
    assert!(got as i64 >= now_before as i64 + offset);
    assert!(got as i64 <= now_after as i64 + offset);
    assert!(got >= seed + 1);
}

#[test]
fn interrupt_mask_keeps_low_bit() {
    let mut rtc = RTCDevice::new();
    write_word(&mut rtc, RTCIMSC, 1);
    assert_eq!(read_word(&mut rtc, RTCIMSC), 1);
    assert_eq!(rtc.registers().imsc, 1);
    write_word(&mut rtc, RTCIMSC, 0);
    assert_eq!(read_word(&mut rtc, RTCIMSC), 0);
    write_word(&mut rtc, RTCIMSC, 3);
    assert_eq!(read_word(&mut rtc, RTCIMSC), 1);
    write_word(&mut rtc, RTCIMSC, 0xffff_fffe);
    assert_eq!(read_word(&mut rtc, RTCIMSC), 0);
    assert_eq!(rtc.metrics.counters(), zero_counters());
}

#[test]
fn status_registers_read_zero_and_refuse_writes() {
    let mut rtc = RTCDevice::new();
    write_word(&mut rtc, RTCIMSC, 1);
    assert_eq!(read_word(&mut rtc, RTCRIS), 0);
    assert_eq!(read_word(&mut rtc, RTCMIS), 0);
    let registers = rtc.registers();
    write_word(&mut rtc, RTCRIS, 1);
    write_word(&mut rtc, RTCMIS, 1);
    assert_eq!(rtc.registers(), registers);
    assert_eq!(
        rtc.metrics.counters(),
        Counters { errors: 2, missed_reads: 0, missed_writes: 2 }
    );
    assert_eq!(read_word(&mut rtc, RTCRIS), 0);
    assert_eq!(read_word(&mut rtc, RTCMIS), 0);
    assert!(!rtc.interrupt_line());
}

#[test]
fn interrupt_clear_write_is_valid_and_deasserts() {
    let mut rtc = RTCDevice::new();
    write_word(&mut rtc, RTCIMSC, 1);
    for value in [0u32, 1, 0xffff_ffff] {
        write_word(&mut rtc, RTCICR, value);
        assert!(!rtc.interrupt_line());
        assert_eq!(rtc.registers().ris, 0);
        assert_eq!(rtc.registers().imsc, 1);
    }
    assert_eq!(rtc.metrics.counters(), zero_counters());
}

#[test]
fn interrupt_clear_read_is_invalid() {
    let mut rtc = RTCDevice::new();
    write_word(&mut rtc, RTCMR, 9);
    let registers = rtc.registers();
    let mut data = [0xde, 0xad, 0xbe, 0xef];
    rtc.read(RTCICR, &mut data);
    assert_eq!(data, [0xde, 0xad, 0xbe, 0xef]);
    assert_eq!(
        rtc.metrics.counters(),
        Counters { errors: 1, missed_reads: 1, missed_writes: 0 }
    );
    assert_eq!(rtc.registers(), registers);
}

#[test]
fn control_register_stays_enabled() {
    let mut rtc = RTCDevice::new();
    assert_eq!(read_word(&mut rtc, RTCCR), 1);
    for value in [1u32, 0, 1, 0, 2, u32::MAX] {
        write_word(&mut rtc, RTCCR, value);
        assert_eq!(read_word(&mut rtc, RTCCR), 1);
    }
    assert_eq!(rtc.metrics.counters(), zero_counters());
}

#[test]
fn control_write_keeps_counter_seed() {
    let mut rtc = RTCDevice::new();
    write_word(&mut rtc, RTCMR, 5);
    write_word(&mut rtc, RTCIMSC, 1);
    write_word(&mut rtc, RTCLR, 42);
    assert_eq!(rtc.registers().lr, 42);
    assert!(rtc.registers().offset < 0);
    let seeded = rtc.registers();
    for value in [0u32, 3, 1, u32::MAX, 1] {
        write_word(&mut rtc, RTCCR, value);
        assert_eq!(rtc.registers(), seeded);
    }
    let got = read_word(&mut rtc, RTCLR);
    assert!(got >= 42 && got < 42 + 20);
    assert_eq!(rtc.metrics.counters(), zero_counters());
}

#[test]
fn wrong_width_write_is_counted_and_dropped() {
    let mut rtc = RTCDevice::new();
    write_word(&mut rtc, RTCMR, 0x0102_0304);
    let registers = rtc.registers();
    let wide = [0xffu8; 8];
    let mut expected = 0;
    for offset in [RTCLR, RTCMR, RTCCR, RTCIMSC, RTCICR, AMBA_ID_LOW, 0x20, 0x1_0000] {
        for len in [0usize, 1, 2, 3, 5, 8] {
            rtc.write(offset, &wide[..len]);
            expected += 1;
            assert_eq!(
                rtc.metrics.counters(),
                Counters { errors: expected, missed_reads: 0, missed_writes: expected }
            );
            assert_eq!(rtc.registers(), registers);
        }
    }
    assert_eq!(read_word(&mut rtc, RTCMR), 0x0102_0304);
}

#[test]
fn wrong_width_read_is_counted_and_fills_nothing() {
    let mut rtc = RTCDevice::new();
    write_word(&mut rtc, RTCMR, 0x0102_0304);
    let registers = rtc.registers();
    let mut expected = 0;
    for offset in [RTCLR, RTCMR, RTCCR, RTCIMSC, RTCRIS, RTCMIS, AMBA_ID_LOW, 0x20] {
        for len in [0usize, 1, 2, 3, 5, 8] {
            let mut data = [0x5au8; 8];
            rtc.read(offset, &mut data[..len]);
            expected += 1;
            assert_eq!(data, [0x5au8; 8]);
            assert_eq!(
                rtc.metrics.counters(),
                Counters { errors: expected, missed_reads: expected, missed_writes: 0 }
            );
            assert_eq!(rtc.registers(), registers);
        }
    }
}

#[test]
fn identification_block_reads_fixed_bytes() {
    let mut rtc = RTCDevice::new();
    for (index, byte) in PL031_ID.iter().enumerate() {
        let offset = AMBA_ID_LOW + 4 * index as u64;
        assert_eq!(read_word(&mut rtc, offset), *byte as u32);
    }
    assert_eq!(rtc.metrics.counters(), zero_counters());
}

#[test]
fn identification_block_refuses_writes() {
    let mut rtc = RTCDevice::new();
    let registers = rtc.registers();
    let mut expected = 0;
    for offset in AMBA_ID_LOW..=AMBA_ID_HIGH {
        write_word(&mut rtc, offset, 0xffff_ffff);
        expected += 1;
        assert_eq!(
            rtc.metrics.counters(),
            Counters { errors: expected, missed_reads: 0, missed_writes: expected }
        );
    }
    assert_eq!(rtc.registers(), registers);
    for (index, byte) in PL031_ID.iter().enumerate() {
        let offset = AMBA_ID_LOW + 4 * index as u64;
        assert_eq!(read_word(&mut rtc, offset), *byte as u32);
    }
}

#[test]
fn unmapped_and_misaligned_offsets_are_invalid() {
    let mut rtc = RTCDevice::new();
    write_word(&mut rtc, RTCMR, 11);
    let registers = rtc.registers();
    let offsets = [
        0x01u64, 0x02, 0x03, 0x05, 0x1c, 0x20, 0x100, 0xfdc, 0xfe1, 0xfe2, 0xfe3, 0xfff, 0x1000,
        0x1_0004, 0xffff_ffff, u64::MAX,
    ];
    let mut expected = 0;
    for offset in offsets {
        let mut data = [0x11, 0x22, 0x33, 0x44];
        rtc.read(offset, &mut data);
        assert_eq!(data, [0x11, 0x22, 0x33, 0x44]);
        rtc.write(offset, &data);
        expected += 1;
        assert_eq!(
            rtc.metrics.counters(),
            Counters { errors: 2 * expected, missed_reads: expected, missed_writes: expected }
        );
        assert_eq!(rtc.registers(), registers);
    }
}

#[test]
fn valid_accesses_count_nothing() {
    let mut rtc = RTCDevice::new();
    for offset in [RTCLR, RTCMR, RTCCR, RTCIMSC] {
        write_word(&mut rtc, offset, 0);
        read_word(&mut rtc, offset);
    }
    read_word(&mut rtc, RTCRIS);
    read_word(&mut rtc, RTCMIS);
    write_word(&mut rtc, RTCICR, 1);
    assert_eq!(rtc.metrics.error_count.count(), 0);
    assert_eq!(rtc.metrics.missed_read_count.count(), 0);
    assert_eq!(rtc.metrics.missed_write_count.count(), 0);
}
