pub mod variants;

pub use variants::{
    resolve_address, Descriptor, LP50xx, LP5009, LP5012, LP5018, LP5024, LP5030, LP5036,
};

use core::marker::PhantomData;

use vstd::prelude::*;

use crate::bus::{BusOp, BusOpView};
use crate::hl::variants::spec_resolve_address;
use crate::ll::i2c::DeviceInterface;
use crate::ll::{self, DeviceError, MaxCurrentOption};

verus! {

/// Pin-strapping selector for the bus address of a device.
#[derive(Debug, Default, Clone, Copy)]
pub enum Address {
    /// Devices configured with `GND, GND` on addr0 and addr1.
    #[default]
    Address0,
    /// Devices configured with `GND, VCC` on addr0 and addr1.
    Address1,
    /// Devices configured with `VCC, GND` on addr0 and addr1.
    Address2,
    /// Devices configured with `VCC, VCC` on addr0 and addr1.
    Address3,
    /// Broadcast address to address all similar devices on the bus.
    ///
    /// Only valid if all such devices are configured identically, so
    /// that each would respond to the same commands in the same way.
    Broadcast,
}

/// Errors at the public surface of the driver.
#[derive(Debug, Clone, PartialEq)]
pub enum Error<T> {
    /// The underlying bus transport returned an error.
    Interface(T),
    /// A LED or RGB LED was indexed past what the variant has.
    Index,
}

impl<T> Error<T> {
    /// Lift an adapter error to the public surface. The buffer
    /// capacity can never be exceeded by a driver operation, so only
    /// transport failures arrive here.
    pub fn from_device(value: DeviceError<T>) -> (r: Error<T>)
        requires
            value is Interface,
        ensures
            value matches DeviceError::Interface(e) ==> r == Error::<T>::Interface(e),
    {
        match value {
            DeviceError::Interface(e) => Error::Interface(e),
            DeviceError::BufferTooSmall => vstd::pervasive::unreached(),
        }
    }
}

/// Color value for an RGB LED: the 8-bit values for the red, green
/// and blue channels, in that order.
#[derive(Debug, Clone, Copy, PartialEq)]
pub struct Rgb(pub [u8; 3]);

impl View for Rgb {
    type V = Seq<u8>;

    open spec fn view(&self) -> Seq<u8> {
        self.0@
    }
}

impl From<[u8; 3]> for Rgb {
    fn from(value: [u8; 3]) -> Rgb {
        Rgb(value)
    }
}

impl vstd::std_specs::convert::FromSpecImpl<[u8; 3]> for Rgb {
    open spec fn obeys_from_spec() -> bool {
        true
    }

    open spec fn from_spec(value: [u8; 3]) -> Rgb {
        Rgb(value)
    }
}

impl From<(u8, u8, u8)> for Rgb {
    fn from(value: (u8, u8, u8)) -> Rgb {
        Rgb([value.0, value.1, value.2])
    }
}

impl vstd::std_specs::convert::FromSpecImpl<(u8, u8, u8)> for Rgb {
    open spec fn obeys_from_spec() -> bool {
        true
    }

    open spec fn from_spec(value: (u8, u8, u8)) -> Rgb {
        Rgb([value.0, value.1, value.2])
    }
}

/// Typestate marker: the device is in standby, its current sinks off.
pub struct Standby;

/// Typestate marker: the device is enabled.
pub struct Normal;

/// Trait of the two typestate markers.
pub trait Marker {}

impl Marker for Standby {}

impl Marker for Normal {}

/// General configuration of a device.
pub struct Config {
    /// Use logarithmic scaling.
    pub log_scale: bool,
    /// Drop into power-save mode automatically when all LEDs are
    /// effectively off.
    pub power_save: bool,
    /// Enable dithering, stretching the resolution from 9 to 12 bits.
    pub pwm_dithering: bool,
    /// The maximum current for a single LED channel.
    pub max_current: MaxCurrentOption,
}

impl Default for Config {
    fn default() -> (r: Self)
        ensures
            r.log_scale && r.power_save && r.pwm_dithering,
            r.max_current is Current25MA5,
    {
        Config {
            log_scale: true,
            power_save: true,
            pwm_dithering: true,
            max_current: MaxCurrentOption::Current25MA5,
        }
    }
}

/// The transaction `enable` issues: write the control byte with the
/// chip-enable bit set.
pub open spec fn spec_enable_op(addr: u8) -> BusOpView {
    BusOpView::Write {
        addr,
        bytes: seq![ll::DEVICE_CONFIG0_ADDRESS, ll::spec_config0_byte(true)],
    }
}

/// The transaction `disable` issues: write the control byte with the
/// chip-enable bit clear.
pub open spec fn spec_disable_op(addr: u8) -> BusOpView {
    BusOpView::Write {
        addr,
        bytes: seq![ll::DEVICE_CONFIG0_ADDRESS, ll::spec_config0_byte(false)],
    }
}

/// High level driver for the LP50xx family of devices.
///
/// Created through [`LP50xx::new`] for a concrete variant. The power
/// state of the device is part of the handle's type: `enable` and
/// `disable` consume the handle and return one of the other state, so
/// an out-of-order transition does not compile.
///
/// Each operation returns the bus transaction it asks for, and `trace`
/// records, in order, every transaction the handle has asked for since
/// it was created.
pub struct Driver<VARIANT: LP50xx, STATE: Marker> {
    /// The transport adapter, bound to the resolved bus address.
    pub device: DeviceInterface,
    /// Every transaction issued through this handle, oldest first.
    pub trace: Ghost<Seq<BusOpView>>,
    pub variant: PhantomData<VARIANT>,
    pub state: PhantomData<STATE>,
}

impl<VARIANT: LP50xx> Driver<VARIANT, Standby> {
    /// A fresh handle in standby, addressing the device the selector
    /// picks, with nothing issued yet.
    pub fn new(address: Address) -> (r: Self)
        ensures
            r.device.address == spec_resolve_address(VARIANT::spec_descriptor(), address),
            r.trace@ == Seq::<BusOpView>::empty(),
    {
        let desc = VARIANT::descriptor();
        let resolved = resolve_address(&desc, address);
        Driver {
            device: DeviceInterface::new(resolved),
            trace: Ghost(Seq::empty()),
            variant: PhantomData,
            state: PhantomData,
        }
    }

    /// Enable the device, turning on the constant current sinks (if
    /// any are configured with a non-zero duty cycle): exactly one
    /// write of the chip-enable byte.
    ///
    /// The handle is consumed. If the transaction fails on the bus,
    /// no handle in either state remains and the device must be
    /// re-resolved.
    pub fn enable(self) -> (r: (Driver<VARIANT, Normal>, BusOp))
        ensures
            r.1@ == spec_enable_op(self.device.address),
            r.0.device == self.device,
            r.0.trace@ == self.trace@.push(r.1@),
    {
        let data = one_byte(ll::config0_byte(true));
        let op = self.device.write(ll::DEVICE_CONFIG0_ADDRESS, data.as_slice());
        proof {
            assert(op@->Write_bytes =~= seq![
                ll::DEVICE_CONFIG0_ADDRESS,
                ll::spec_config0_byte(true),
            ]);
        }
        let driver = Driver {
            device: self.device,
            trace: Ghost(self.trace@.push(op@)),
            variant: PhantomData,
            state: PhantomData,
        };
        (driver, op)
    }
}

impl<VARIANT: LP50xx> Driver<VARIANT, Normal> {
    /// Disable the device, putting it back into standby: exactly one
    /// write of the control byte with chip-enable clear. Register
    /// values are retained, but the constant current sinks stop, so
    /// the LEDs turn off.
    ///
    /// The handle is consumed, as with `enable`.
    pub fn disable(self) -> (r: (Driver<VARIANT, Standby>, BusOp))
        ensures
            r.1@ == spec_disable_op(self.device.address),
            r.0.device == self.device,
            r.0.trace@ == self.trace@.push(r.1@),
    {
        let data = one_byte(ll::config0_byte(false));
        let op = self.device.write(ll::DEVICE_CONFIG0_ADDRESS, data.as_slice());
        proof {
            assert(op@->Write_bytes =~= seq![
                ll::DEVICE_CONFIG0_ADDRESS,
                ll::spec_config0_byte(false),
            ]);
        }
        let driver = Driver {
            device: self.device,
            trace: Ghost(self.trace@.push(op@)),
            variant: PhantomData,
            state: PhantomData,
        };
        (driver, op)
    }
}

impl<VARIANT: LP50xx, STATE: Marker> Driver<VARIANT, STATE> {
    /// The read half of a configuration update: ask for the current
    /// control-1 byte. Available in either power state.
    pub fn configure_read(&mut self) -> (r: BusOp)
        ensures
            final(self).device == old(self).device,
            r@ == (BusOpView::WriteRead {
                addr: old(self).device.address,
                bytes: seq![ll::DEVICE_CONFIG1_ADDRESS],
                read_len: 1,
            }),
            final(self).trace@ == old(self).trace@.push(r@),
    {
        let op = self.device.read_register(ll::DEVICE_CONFIG1_ADDRESS, 1);
        self.trace = Ghost(self.trace@.push(op@));
        op
    }

    /// The write half of a configuration update: given the control-1
    /// byte as it was just read, write it back with the four
    /// configuration fields replaced and every other bit unchanged —
    /// a read-modify-write, not atomic with respect to any other
    /// writer of the same register.
    pub fn configure(&mut self, config: &Config, current: u8) -> (r: BusOp)
        ensures
            final(self).device == old(self).device,
            r@ == (BusOpView::Write {
                addr: old(self).device.address,
                bytes: seq![
                    ll::DEVICE_CONFIG1_ADDRESS,
                    ll::spec_config1_update(
                        current,
                        config.log_scale,
                        config.power_save,
                        config.pwm_dithering,
                        config.max_current,
                    ),
                ],
            }),
            final(self).trace@ == old(self).trace@.push(r@),
    {
        let byte = ll::config1_update(
            current,
            config.log_scale,
            config.power_save,
            config.pwm_dithering,
            config.max_current,
        );
        let data = one_byte(byte);
        let op = self.device.write(ll::DEVICE_CONFIG1_ADDRESS, data.as_slice());
        proof {
            assert(op@->Write_bytes =~= seq![ll::DEVICE_CONFIG1_ADDRESS, byte]);
        }
        self.trace = Ghost(self.trace@.push(op@));
        op
    }

    /// Set one OUT channel to a value: a single-byte write at the
    /// channel's color register.
    ///
    /// Returns [`Error::Index`], before any bus access, if the
    /// variant does not have the indexed channel. The accepted range
    /// is bounded inclusively by the channel count, one past the last
    /// zero-based index.
    pub fn set_channel<T>(&mut self, channel_i: u8, value: u8) -> (r: Result<BusOp, Error<T>>)
        ensures
            channel_i > VARIANT::spec_descriptor().led_count ==> (r matches Err(e) && e is Index
                && *final(self) == *old(self)),
            channel_i <= VARIANT::spec_descriptor().led_count ==> (r matches Ok(op)
                && final(self).device == old(self).device && op@ == (BusOpView::Write {
                addr: old(self).device.address,
                bytes: seq![
                    (VARIANT::spec_descriptor().out_start_address + channel_i) as u8,
                    value,
                ],
            }) && final(self).trace@ == old(self).trace@.push(op@)),
    {
        let desc = VARIANT::descriptor();
        if channel_i > desc.led_count {
            return Err(Error::Index);
        }
        let data = one_byte(value);
        let op = self.device.write(desc.out_start_address + channel_i, data.as_slice());
        proof {
            assert(op@->Write_bytes =~= seq![
                (VARIANT::spec_descriptor().out_start_address + channel_i) as u8,
                value,
            ]);
        }
        self.trace = Ghost(self.trace@.push(op@));
        Ok(op)
    }

    /// Set the color of one RGB LED: one three-byte write starting at
    /// the triplet's first color register, relying on the device's
    /// auto-increment so a single transaction writes R, G and B in
    /// order.
    ///
    /// Returns [`Error::Index`], before any bus access, if the
    /// variant does not have the indexed RGB LED. The accepted range
    /// is bounded inclusively by the RGB count, one past the last
    /// zero-based index.
    pub fn set_rgb<T>(&mut self, rgb_i: u8, value: Rgb) -> (r: Result<BusOp, Error<T>>)
        ensures
            rgb_i > VARIANT::spec_descriptor().rgb_count ==> (r matches Err(e) && e is Index
                && *final(self) == *old(self)),
            rgb_i <= VARIANT::spec_descriptor().rgb_count ==> (r matches Ok(op)
                && final(self).device == old(self).device && op@ == (BusOpView::Write {
                addr: old(self).device.address,
                bytes: seq![
                    (VARIANT::spec_descriptor().out_start_address + 3 * rgb_i) as u8,
                ] + value@,
            }) && final(self).trace@ == old(self).trace@.push(op@)),
    {
        let desc = VARIANT::descriptor();
        if rgb_i > desc.rgb_count {
            return Err(Error::Index);
        }
        let mut data: Vec<u8> = Vec::new();
        data.push(value.0[0]);
        data.push(value.0[1]);
        data.push(value.0[2]);
        proof {
            assert(data@ =~= value@);
        }
        let op = self.device.write(desc.out_start_address + rgb_i * 3, data.as_slice());
        self.trace = Ghost(self.trace@.push(op@));
        Ok(op)
    }

    /// Set the brightness of one RGB LED (not its color): a
    /// single-byte write at the triplet's brightness register.
    ///
    /// Returns [`Error::Index`], before any bus access, if the
    /// variant does not have the indexed RGB LED. The accepted range
    /// is bounded inclusively by the RGB count, one past the last
    /// zero-based index.
    pub fn set_rgb_brightness<T>(&mut self, rgb_i: u8, value: u8) -> (r: Result<BusOp, Error<T>>)
        ensures
            rgb_i > VARIANT::spec_descriptor().rgb_count ==> (r matches Err(e) && e is Index
                && *final(self) == *old(self)),
            rgb_i <= VARIANT::spec_descriptor().rgb_count ==> (r matches Ok(op)
                && final(self).device == old(self).device && op@ == (BusOpView::Write {
                addr: old(self).device.address,
                bytes: seq![
                    (VARIANT::spec_descriptor().led_start_address + rgb_i) as u8,
                    value,
                ],
            }) && final(self).trace@ == old(self).trace@.push(op@)),
    {
        let desc = VARIANT::descriptor();
        if rgb_i > desc.rgb_count {
            return Err(Error::Index);
        }
        let data = one_byte(value);
        let op = self.device.write(desc.led_start_address + rgb_i, data.as_slice());
        proof {
            assert(op@->Write_bytes =~= seq![
                (VARIANT::spec_descriptor().led_start_address + rgb_i) as u8,
                value,
            ]);
        }
        self.trace = Ghost(self.trace@.push(op@));
        Ok(op)
    }

    /// Set the brightness of all RGB LEDs in one call: a single
    /// transaction writing one copy of the value per RGB LED,
    /// starting at the first brightness register and relying on
    /// auto-increment.
    pub fn set_all_brightness(&mut self, value: u8) -> (r: BusOp)
        ensures
            final(self).device == old(self).device,
            r@ == (BusOpView::Write {
                addr: old(self).device.address,
                bytes: seq![VARIANT::spec_descriptor().led_start_address] + Seq::new(
                    VARIANT::spec_descriptor().rgb_count as nat,
                    |j: int| value,
                ),
            }),
            final(self).trace@ == old(self).trace@.push(r@),
    {
        let desc = VARIANT::descriptor();
        let mut data: Vec<u8> = Vec::new();
        let mut i: u8 = 0;
        while i < desc.rgb_count
            invariant
                i <= desc.rgb_count,
                desc == VARIANT::spec_descriptor(),
                desc.wf(),
                data@ == Seq::new(i as nat, |j: int| value),
            decreases desc.rgb_count - i,
        {
            data.push(value);
            i = i + 1;
            proof {
                assert(data@ =~= Seq::new(i as nat, |j: int| value));
            }
        }
        let op = self.device.write(desc.led_start_address, data.as_slice());
        self.trace = Ghost(self.trace@.push(op@));
        op
    }
}

/// Enabling then disabling is observable as a different transaction
/// order than disabling then enabling: whatever was issued before,
/// the two traces differ.
pub proof fn lemma_enable_disable_order_observable(trace: Seq<BusOpView>, addr: u8)
    ensures
        trace.push(spec_enable_op(addr)).push(spec_disable_op(addr)) != trace.push(
            spec_disable_op(addr),
        ).push(spec_enable_op(addr)),
{
    let a = trace.push(spec_enable_op(addr)).push(spec_disable_op(addr));
    let b = trace.push(spec_disable_op(addr)).push(spec_enable_op(addr));
    assert(a.last() == spec_disable_op(addr));
    assert(b.last() == spec_enable_op(addr));
    if spec_enable_op(addr) == spec_disable_op(addr) {
        assert(spec_enable_op(addr)->Write_bytes[1] == spec_disable_op(addr)->Write_bytes[1]);
        assert(false);
    }
    if a == b {
        assert(a.last() == b.last());
        assert(false);
    }
}

/// A one-byte payload.
fn one_byte(value: u8) -> (r: Vec<u8>)
    ensures
        r@ == seq![value],
{
    let mut data: Vec<u8> = Vec::new();
    data.push(value);
    proof {
        assert(data@ =~= seq![value]);
    }
    data
}

} // verus!
