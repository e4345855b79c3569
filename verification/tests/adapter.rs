use lp50xx::bus::BusOp;
use lp50xx::ll::i2c::DeviceInterface;
use lp50xx::ll::{config0_byte, config1_update, DeviceError, MaxCurrentOption};

fn regw(addr: u8, register: u8, values: &[u8]) -> BusOp {
    let mut bytes = vec![register];
    bytes.extend_from_slice(values);
    BusOp::Write { addr, bytes }
}

fn regr(addr: u8, register: u8, read_len: usize) -> BusOp {
    BusOp::WriteRead { addr, bytes: vec![register], read_len }
}

#[test]
fn base_config() {
    const ADDRESS: u8 = 0b0110000;

    let expected = [
        regw(ADDRESS, 0x00, &[0x40]),
        regr(ADDRESS, 0x01, 1),
        regw(ADDRESS, 0x01, &[0x3C & !(1 << 2)]),
    ];

    let ll = DeviceInterface::new(ADDRESS);

    let enable = ll
        .write_register::<()>(0x00, &[config0_byte(true)])
        .unwrap();
    let read = ll.read_register(0x01, 1);
    // The device would answer the read with 0x3C: write it back with
    // only the dithering bit cleared.
    let modified = config1_update(0x3C, true, true, false, MaxCurrentOption::Current25MA5);
    let write_back = ll.write_register::<()>(0x01, &[modified]).unwrap();

    assert_eq!([enable, read, write_back], expected);
}

#[test]
fn control_byte_values() {
    assert_eq!(config0_byte(true), 0x40);
    assert_eq!(config0_byte(false), 0x00);

    // All four fields set into a byte that had none of them.
    assert_eq!(
        config1_update(0x00, true, true, true, MaxCurrentOption::Current35MA),
        0x36
    );
    // All four fields cleared out of a byte that had every bit set:
    // bits 7, 6, 3 and 0 stay.
    assert_eq!(
        config1_update(0xFF, false, false, false, MaxCurrentOption::Current25MA5),
        0xC9
    );
}

#[test]
fn write_register_framing() {
    let ll = DeviceInterface::new(0x30);
    let op = ll.write_register::<()>(0x14, &[9, 8, 7]).unwrap();
    assert_eq!(op, regw(0x30, 0x14, &[9, 8, 7]));
}

#[test]
fn write_register_capacity() {
    let ll = DeviceInterface::new(0x30);
    // Twelve payload bytes plus the register byte fill the buffer.
    assert!(ll.write_register::<()>(0x08, &[0x55; 12]).is_ok());
    // One more does not fit.
    assert_eq!(
        ll.write_register::<()>(0x08, &[0x55; 13]),
        Err(DeviceError::BufferTooSmall)
    );
}
