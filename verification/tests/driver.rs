use uc1611s::bus::{RecordingBus, TrackedBus};
use uc1611s::command::{Command, READ_DATA, READ_STATUS, WRITE_COMMAND, WRITE_DATA};
use uc1611s::{AddressOption, UC1611S};

#[test]
fn register_offsets_are_fixed() {
    assert_eq!(WRITE_COMMAND, 0);
    assert_eq!(READ_STATUS, 1);
    assert_eq!(WRITE_DATA, 2);
    assert_eq!(READ_DATA, 3);
}

#[test]
fn preset_addresses() {
    assert_eq!(AddressOption::A.address(), 0x70);
    assert_eq!(AddressOption::B.address(), 0x74);
    assert_eq!(AddressOption::C.address(), 0x7c);
    assert_eq!(AddressOption::D.address(), 0x78);
}

#[test]
fn construction_succeeds_below_ceiling_and_targets_base_plus_offset() {
    // Every base address below 0x7e - 3 = 0x7b is accepted, and the
    // register address on the wire is always base + offset.
    for base in 0u8..0x7b {
        let mut driver = UC1611S::new_custom_address(RecordingBus::new(), base);
        driver.write_data(&[0xaa]).unwrap();
        driver.set_column_address(0x00).unwrap();
        let bus = driver.release();
        assert_eq!(bus.log.len(), 2);
        assert_eq!(bus.log[0].0, base + WRITE_DATA);
        assert_eq!(bus.log[1].0, base + WRITE_COMMAND);
    }
}

#[test]
fn default_address_is_preset_a() {
    let mut driver = UC1611S::new(RecordingBus::new());
    driver.write_data(&[0x01]).unwrap();
    let bus = driver.release();
    assert_eq!(bus.log, vec![(0x72, vec![0x01])]);
}

#[test]
fn column_encoding_exhaustive() {
    // Every 8-bit column is framed as [low nibble, 0x10 | high nibble] on
    // the command channel.
    for column in 0u8..=0xff {
        let mut bus = RecordingBus::new();
        Command::SetColumnAddress(column)
            .send(&mut bus, 0x70)
            .unwrap();
        assert_eq!(
            bus.log,
            vec![(0x70, vec![column & 0x0f, 0x10 | (column >> 4)])]
        );
    }
}

#[test]
fn write_data_forwards_bytes_unchanged() {
    let mut bus = RecordingBus::new();
    Command::WriteData(&[0x00, 0x80, 0xff])
        .send(&mut bus, 0x78)
        .unwrap();
    assert_eq!(bus.log, vec![(0x7a, vec![0x00, 0x80, 0xff])]);
}

#[test]
fn write_data_forwards_the_empty_sequence() {
    let mut driver = UC1611S::new_custom_address(RecordingBus::new(), 0x40);
    driver.write_data(&[]).unwrap();
    let bus = driver.release();
    assert_eq!(bus.log, vec![(0x42, vec![])]);
}

#[test]
fn write_data_at_preset_b() {
    let mut driver = UC1611S::new_with_address(RecordingBus::new(), AddressOption::B);
    driver.write_data(&[0xff, 0x00]).unwrap();
    let bus = driver.release();
    assert_eq!(bus.log, vec![(0x76, vec![0xff, 0x00])]);
}

#[test]
fn set_column_address_0x1f() {
    let mut driver = UC1611S::new_with_address(RecordingBus::new(), AddressOption::A);
    driver.set_column_address(0x1f).unwrap();
    let bus = driver.release();
    assert_eq!(bus.log, vec![(0x70, vec![0x0f, 0x11])]);
}

#[test]
fn out_of_bounds_pixels_are_discarded_without_bus_writes() {
    let coords = [(-1, 0), (0, -1), (64, 0), (0, 64), (64, 64)];
    for (x, y) in coords {
        let mut driver = UC1611S::new(RecordingBus::new());
        driver.draw_pixel(x, y, 0xff).unwrap();
        let bus = driver.release();
        assert!(bus.log.is_empty());
    }
}

#[test]
fn in_bounds_pixel_at_origin_selects_column_then_writes_data() {
    let mut driver = UC1611S::new(RecordingBus::new());
    driver.draw_pixel(0, 0, 0x55).unwrap();
    let bus = driver.release();
    assert_eq!(
        bus.log,
        vec![(0x70, vec![0x00, 0x10]), (0x72, vec![0x00, 0x55])]
    );
}

#[test]
fn in_bounds_pixel_at_far_corner_selects_column_then_writes_data() {
    let mut driver = UC1611S::new_with_address(RecordingBus::new(), AddressOption::D);
    driver.draw_pixel(63, 63, 0x01).unwrap();
    let bus = driver.release();
    assert_eq!(
        bus.log,
        vec![(0x78, vec![0x0f, 0x13]), (0x7a, vec![0x3f, 0x01])]
    );
}

#[test]
fn tracked_bus_forwards_writes_to_the_raw_transport() {
    let bus = TrackedBus::new(RecordingBus::new());
    let mut driver = UC1611S::new_with_address(bus, AddressOption::B);
    driver.write_data(&[0xff, 0x00]).unwrap();
    driver.set_column_address(0x1f).unwrap();
    let raw = driver.release().release();
    assert_eq!(
        raw.log,
        vec![(0x76, vec![0xff, 0x00]), (0x74, vec![0x0f, 0x11])]
    );
}

#[test]
fn surface_size_is_64_by_64_regardless_of_state() {
    let mut driver = UC1611S::new_custom_address(RecordingBus::new(), 0x10);
    assert_eq!(driver.size(), (64, 64));
    driver.write_data(&[0x01, 0x02]).unwrap();
    driver.set_column_address(0x20).unwrap();
    assert_eq!(driver.size(), (64, 64));
    let other = UC1611S::new_with_address(RecordingBus::new(), AddressOption::B);
    assert_eq!(other.size(), (64, 64));
}
