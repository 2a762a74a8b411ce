use imu_pipeline::spi_core::combine_bytes;
use imu_pipeline::spi_core::SpiCore;
use imu_pipeline::spi_core::ADDRESS_MASK;
use imu_pipeline::spi_core::READ_FLAG;

#[test]
fn write_frame_is_masked_address_then_value() {
    let core = SpiCore::new();
    assert_eq!(core.write_register(0x06, 0x01), [0x06, 0x01]);
    assert_eq!(core.write_register(0x7F, 0x20), [0x7F, 0x20]);
    assert_eq!(core.write_register(0x00, 0xFF), [0x00, 0xFF]);
}

#[test]
fn write_frame_never_sets_the_mode_bit() {
    let core = SpiCore::new();
    for reg in 0..=u8::MAX {
        let frame = core.write_register(reg, 0xA5);
        assert_eq!(frame[0] & READ_FLAG, 0);
        assert_eq!(frame[0], reg & ADDRESS_MASK);
        assert_eq!(frame[1], 0xA5);
    }
    assert_eq!(core.write_register(0x86, 0x01), [0x06, 0x01]);
}

#[test]
fn read_frame_always_sets_the_mode_bit() {
    let core = SpiCore::new();
    for reg in 0..=u8::MAX {
        let frame = core.read_register_request(reg);
        assert_eq!(frame[0] & READ_FLAG, READ_FLAG);
        assert_eq!(frame[0] & ADDRESS_MASK, reg & ADDRESS_MASK);
        assert_eq!(frame[1], 0x00);
    }
    assert_eq!(core.read_register_request(0x06), [0x86, 0x00]);
}

#[test]
fn read_register_returns_the_second_byte() {
    let core = SpiCore::new();
    assert_eq!(core.read_register(&[0xEE, 0x01]), 0x01);
    assert_eq!(core.read_register(&[0x01, 0x00]), 0x00);
}

#[test]
fn combine_is_big_endian_and_signed() {
    assert_eq!(combine_bytes(0x40, 0x00), 16384);
    assert_eq!(combine_bytes(0xC0, 0x00), -16384);
    assert_eq!(combine_bytes(0x12, 0x34), 0x1234);
    assert_eq!(combine_bytes(0x00, 0x01), 1);
    assert_eq!(combine_bytes(0x01, 0x00), 256);
    assert_eq!(combine_bytes(0xFF, 0xFF), -1);
    assert_eq!(combine_bytes(0x80, 0x00), i16::MIN);
    assert_eq!(combine_bytes(0x7F, 0xFF), i16::MAX);
}

#[test]
fn combine_agrees_with_the_standard_conversion() {
    for high in 0..=u8::MAX {
        for low in 0..=u8::MAX {
            assert_eq!(combine_bytes(high, low), i16::from_be_bytes([high, low]));
        }
    }
}

#[test]
fn read_16bit_register_combines_two_single_reads() {
    let core = SpiCore::new();
    assert_eq!(core.read_16bit_register(&[0x00, 0x12], &[0x00, 0x34]), 0x1234);
    assert_eq!(core.read_16bit_register(&[0xAA, 0xFF], &[0xBB, 0xFE]), -2);
}

#[test]
fn burst_request_is_address_then_zeros() {
    let core = SpiCore::new();
    assert_eq!(core.burst_read_request(0x2D, 6), vec![0xAD, 0, 0, 0, 0, 0, 0]);
    assert_eq!(core.burst_read_request(0x33, 1), vec![0xB3, 0]);
    assert_eq!(core.burst_read_request(0x00, 0), vec![0x80]);
}

#[test]
fn burst_response_drops_the_dummy_byte() {
    let core = SpiCore::new();
    assert_eq!(core.burst_read(&[0xEE, 1, 2, 3]), Some(vec![1, 2, 3]));
    assert_eq!(core.burst_read(&[0xEE]), Some(vec![]));
}

#[test]
fn burst_response_without_dummy_byte_holds_nothing() {
    let core = SpiCore::new();
    assert_eq!(core.burst_read(&[]), None);
}

#[test]
fn triplet_request_covers_six_registers() {
    let core = SpiCore::new();
    let frame = core.burst_read_combine_request(0x2D);
    assert_eq!(frame, [0xAD, 0, 0, 0, 0, 0, 0]);
    assert_eq!(frame.to_vec(), core.burst_read_request(0x2D, 6));
}

#[test]
fn triplet_combines_each_pair_big_endian() {
    let core = SpiCore::new();
    let response = [0xEE, 0x01, 0x02, 0x03, 0x04, 0x05, 0x06];
    assert_eq!(core.burst_read_combine(&response), [0x0102, 0x0304, 0x0506]);
    let response = [0x00, 0x40, 0x00, 0x00, 0x00, 0xC0, 0x00];
    assert_eq!(core.burst_read_combine(&response), [16384, 0, -16384]);
    let response = [0x00, 0xFF, 0xFF, 0x80, 0x00, 0x7F, 0xFF];
    assert_eq!(core.burst_read_combine(&response), [-1, i16::MIN, i16::MAX]);
}
