use lp50xx::bus::BusOp;
use lp50xx::hl::{
    Address, Config, Driver, Error, Rgb, Standby, LP50xx, LP5009, LP5012, LP5018, LP5024, LP5030,
    LP5036,
};
use lp50xx::ll::MaxCurrentOption;

fn regw(addr: u8, register: u8, values: &[u8]) -> BusOp {
    let mut bytes = vec![register];
    bytes.extend_from_slice(values);
    BusOp::Write { addr, bytes }
}

fn regr(addr: u8, register: u8, read_len: usize) -> BusOp {
    BusOp::WriteRead { addr, bytes: vec![register], read_len }
}

#[test]
fn lp5030() {
    const ADDRESS: u8 = 0b0110010;

    let expected = [
        regw(ADDRESS, 0x00, &[0x40]),
        regr(ADDRESS, 0x01, 1),
        regw(ADDRESS, 0x01, &[0x3C & !(1 << 2) | (1 << 1)]),
        regw(ADDRESS, 0x08, &[0x55; 10]),
        regw(ADDRESS, 0x11, &[0x54]),
        regw(ADDRESS, 0x2F, &[0x01, 0x02, 0x03]),
        regw(ADDRESS, 0x2A, &[0xFF]),
    ];

    let mut issued: Vec<BusOp> = Vec::new();

    let hl = LP5030::new(Address::Address1);
    let (mut hl, op) = hl.enable();
    issued.push(op);

    issued.push(hl.configure_read());
    // The device would answer the read with 0x3C.
    issued.push(hl.configure(
        &Config {
            log_scale: true,
            power_save: true,
            pwm_dithering: false,
            max_current: MaxCurrentOption::Current35MA,
        },
        0x3C,
    ));

    issued.push(hl.set_all_brightness(0x55));
    issued.push(hl.set_rgb_brightness::<()>(9, 0x54).unwrap());
    issued.push(hl.set_rgb::<()>(9, Rgb::from((0x01, 0x02, 0x03))).unwrap());
    issued.push(hl.set_channel::<()>(22, 0xFF).unwrap());

    assert_eq!(issued, expected);
}

#[test]
fn address_resolution() {
    // Models 9, 12, 30 and 36 share one base and broadcast address;
    // models 18 and 24 share the other.
    let low = [
        LP5009::descriptor(),
        LP5012::descriptor(),
        LP5030::descriptor(),
        LP5036::descriptor(),
    ];
    let high = [LP5018::descriptor(), LP5024::descriptor()];

    for desc in low {
        assert_eq!(lp50xx::hl::resolve_address(&desc, Address::Address0), 0b0110000);
        assert_eq!(lp50xx::hl::resolve_address(&desc, Address::Address1), 0b0110010);
        assert_eq!(lp50xx::hl::resolve_address(&desc, Address::Address2), 0b0110100);
        assert_eq!(lp50xx::hl::resolve_address(&desc, Address::Address3), 0b0110110);
        assert_eq!(lp50xx::hl::resolve_address(&desc, Address::Broadcast), 0b0011100);
    }
    for desc in high {
        assert_eq!(lp50xx::hl::resolve_address(&desc, Address::Address0), 0b0101000);
        assert_eq!(lp50xx::hl::resolve_address(&desc, Address::Address1), 0b0101010);
        assert_eq!(lp50xx::hl::resolve_address(&desc, Address::Address2), 0b0101100);
        assert_eq!(lp50xx::hl::resolve_address(&desc, Address::Address3), 0b0101110);
        assert_eq!(lp50xx::hl::resolve_address(&desc, Address::Broadcast), 0b0111100);
    }
}

#[test]
fn enable_disable_round_trip() {
    let hl: Driver<LP5012, Standby> = LP5012::new(Address::Address0);
    let (hl, enable_op) = hl.enable();
    let (_hl, disable_op) = hl.disable();

    assert_eq!(enable_op, regw(0b0110000, 0x00, &[0x40]));
    assert_eq!(disable_op, regw(0b0110000, 0x00, &[0x00]));

    // The two orders of the same pair of transactions are observably
    // different.
    assert_ne!(
        vec![enable_op.clone(), disable_op.clone()],
        vec![disable_op, enable_op],
    );
}

#[test]
fn configure_read_modify_write() {
    let hl = LP5036::new(Address::Address0);
    let (mut hl, _) = hl.enable();

    let read_op = hl.configure_read();
    assert_eq!(read_op, regr(0b0110000, 0x01, 1));

    // As read: log scale on, power save on, dithering on, 25.5 mA.
    let current = 0x3C;
    let write_op = hl.configure(
        &Config {
            log_scale: true,
            power_save: true,
            pwm_dithering: false,
            max_current: MaxCurrentOption::Current25MA5,
        },
        current,
    );
    // Only the dithering bit changes; every other bit is kept.
    assert_eq!(write_op, regw(0b0110000, 0x01, &[0x3C & !(1 << 2)]));
}

#[test]
fn index_bounds_model30() {
    let hl = LP5030::new(Address::Address1);
    let (mut hl, _) = hl.enable();

    // In range.
    assert!(hl.set_rgb_brightness::<()>(9, 0x10).is_ok());
    assert!(hl.set_channel::<()>(22, 0x10).is_ok());
    // The boundary is inclusive of the declared count itself.
    assert!(hl.set_rgb_brightness::<()>(10, 0x10).is_ok());
    assert!(hl.set_rgb::<()>(10, Rgb([1, 2, 3])).is_ok());
    assert!(hl.set_channel::<()>(30, 0x10).is_ok());
    // Past the boundary.
    assert_eq!(hl.set_rgb_brightness::<()>(11, 0x10), Err(Error::Index));
    assert_eq!(hl.set_rgb::<()>(11, Rgb([1, 2, 3])), Err(Error::Index));
    assert_eq!(hl.set_channel::<()>(31, 0x10), Err(Error::Index));
}

#[test]
fn set_all_brightness_model30() {
    let hl = LP5030::new(Address::Address0);
    let (mut hl, _) = hl.enable();
    let op = hl.set_all_brightness(0x55);
    assert_eq!(op, regw(0b0110000, 0x08, &[0x55; 10]));
}

#[test]
fn set_rgb_framing_model30() {
    let hl = LP5030::new(Address::Address0);
    let (mut hl, _) = hl.enable();
    let op = hl.set_rgb::<()>(9, Rgb::from((0x01, 0x02, 0x03))).unwrap();
    // One three-byte write, 27 registers past the first color register.
    assert_eq!(op, regw(0b0110000, 0x14 + 27, &[0x01, 0x02, 0x03]));
}

#[test]
fn rgb_conversions() {
    assert_eq!(Rgb::from((1, 2, 3)), Rgb([1, 2, 3]));
    assert_eq!(Rgb::from([4, 5, 6]), Rgb([4, 5, 6]));
}

#[test]
fn config_default() {
    let config = Config::default();
    assert!(config.log_scale);
    assert!(config.power_save);
    assert!(config.pwm_dithering);
    assert_eq!(config.max_current, MaxCurrentOption::Current25MA5);
}

#[test]
fn error_from_device() {
    let lifted = Error::from_device(lp50xx::ll::DeviceError::Interface(7u8));
    assert_eq!(lifted, Error::Interface(7u8));
}
