use core::marker::PhantomData;

use vstd::prelude::*;

use crate::hl::{Address, Driver, Standby};
use crate::ll::i2c::DeviceInterface;

verus! {

/// The per-variant constants: channel geometry, bus addressing and
/// register layout, fixed by the datasheet of each chip model.
#[derive(Debug, Clone, Copy, PartialEq, Eq, Structural)]
pub struct Descriptor {
    /// Number of single OUT channels.
    pub led_count: u8,
    /// Number of RGB triplets.
    pub rgb_count: u8,
    /// 7-bit bus address for the first pin-strapping option.
    pub address_base: u8,
    /// 7-bit bus address every identically configured device answers.
    pub address_broadcast: u8,
    /// Register address of `LED0_BRIGHTNESS`.
    pub led_start_address: u8,
    /// Register address of `OUT0_COLOR`.
    pub out_start_address: u8,
}

impl Descriptor {
    /// The geometry limits every supported variant obeys: the largest
    /// brightness block fits the transfer buffer, every addressable
    /// register index stays a byte, and the color block starts after
    /// the brightness block.
    pub open spec fn wf(self) -> bool {
        &&& self.address_base < 0x80
        &&& self.address_broadcast < 0x80
        &&& 1 + self.rgb_count as int <= crate::ll::i2c::MAX_WRITE_SIZE as int
        &&& self.led_start_address as int + self.rgb_count as int <= 255
        &&& self.out_start_address as int + self.led_count as int <= 255
        &&& self.out_start_address as int + 3 * self.rgb_count as int <= 255
        &&& self.led_start_address as int + self.rgb_count as int
            <= self.out_start_address as int
    }
}

/// The bus address a descriptor and a selector resolve to: the base
/// address with the strapping offset or-ed in, or the broadcast
/// address.
pub open spec fn spec_resolve_address(d: Descriptor, address: Address) -> u8 {
    match address {
        Address::Address0 => d.address_base,
        Address::Address1 => d.address_base | 0b010u8,
        Address::Address2 => d.address_base | 0b100u8,
        Address::Address3 => d.address_base | 0b110u8,
        Address::Broadcast => d.address_broadcast,
    }
}

pub fn resolve_address(d: &Descriptor, address: Address) -> (r: u8)
    ensures
        r == spec_resolve_address(*d, address),
{
    match address {
        Address::Address0 => d.address_base,
        Address::Address1 => d.address_base | 0b010u8,
        Address::Address2 => d.address_base | 0b100u8,
        Address::Address3 => d.address_base | 0b110u8,
        Address::Broadcast => d.address_broadcast,
    }
}

/// Trait for all variants of the LP50xx family of ICs.
pub trait LP50xx: Sized {
    /// The datasheet constants of this variant.
    spec fn spec_descriptor() -> Descriptor;

    /// The datasheet constants of this variant, as a value.
    fn descriptor() -> (r: Descriptor)
        ensures
            r == Self::spec_descriptor(),
            r.wf(),
    ;

    /// Construct the driver for this variant, in standby, addressing
    /// the device the selector picks.
    fn new(address: Address) -> (r: Driver<Self, Standby>)
        ensures
            r.device.address == spec_resolve_address(Self::spec_descriptor(), address),
            r.trace@ == Seq::<crate::bus::BusOpView>::empty(),
    ;
}

/// Nine channels, three RGB triplets.
pub struct LP5009;

/// Twelve channels, four RGB triplets.
pub struct LP5012;

/// Eighteen channels, six RGB triplets.
pub struct LP5018;

/// Twenty-four channels, eight RGB triplets.
pub struct LP5024;

/// Thirty channels, ten RGB triplets.
pub struct LP5030;

/// Thirty-six channels, twelve RGB triplets.
pub struct LP5036;

impl LP50xx for LP5009 {
    open spec fn spec_descriptor() -> Descriptor {
        Descriptor {
            led_count: 9,
            rgb_count: 3,
            address_base: 0b0110000,
            address_broadcast: 0b0011100,
            led_start_address: 0x07,
            out_start_address: 0x0B,
        }
    }

    fn descriptor() -> Descriptor {
        Descriptor {
            led_count: 9,
            rgb_count: 3,
            address_base: 0b0110000,
            address_broadcast: 0b0011100,
            led_start_address: 0x07,
            out_start_address: 0x0B,
        }
    }

    fn new(address: Address) -> Driver<Self, Standby> {
        let desc = Descriptor {
            led_count: 9,
            rgb_count: 3,
            address_base: 0b0110000,
            address_broadcast: 0b0011100,
            led_start_address: 0x07,
            out_start_address: 0x0B,
        };
        let resolved = resolve_address(&desc, address);
        Driver {
            device: DeviceInterface::new(resolved),
            trace: Ghost(Seq::empty()),
            variant: PhantomData,
            state: PhantomData,
        }
    }
}

impl LP50xx for LP5012 {
    open spec fn spec_descriptor() -> Descriptor {
        Descriptor {
            led_count: 12,
            rgb_count: 4,
            address_base: 0b0110000,
            address_broadcast: 0b0011100,
            led_start_address: 0x07,
            out_start_address: 0x0B,
        }
    }

    fn descriptor() -> Descriptor {
        Descriptor {
            led_count: 12,
            rgb_count: 4,
            address_base: 0b0110000,
            address_broadcast: 0b0011100,
            led_start_address: 0x07,
            out_start_address: 0x0B,
        }
    }

    fn new(address: Address) -> Driver<Self, Standby> {
        let desc = Descriptor {
            led_count: 12,
            rgb_count: 4,
            address_base: 0b0110000,
            address_broadcast: 0b0011100,
            led_start_address: 0x07,
            out_start_address: 0x0B,
        };
        let resolved = resolve_address(&desc, address);
        Driver {
            device: DeviceInterface::new(resolved),
            trace: Ghost(Seq::empty()),
            variant: PhantomData,
            state: PhantomData,
        }
    }
}

impl LP50xx for LP5018 {
    open spec fn spec_descriptor() -> Descriptor {
        Descriptor {
            led_count: 18,
            rgb_count: 6,
            address_base: 0b0101000,
            address_broadcast: 0b0111100,
            led_start_address: 0x07,
            out_start_address: 0x0F,
        }
    }

    fn descriptor() -> Descriptor {
        Descriptor {
            led_count: 18,
            rgb_count: 6,
            address_base: 0b0101000,
            address_broadcast: 0b0111100,
            led_start_address: 0x07,
            out_start_address: 0x0F,
        }
    }

    fn new(address: Address) -> Driver<Self, Standby> {
        let desc = Descriptor {
            led_count: 18,
            rgb_count: 6,
            address_base: 0b0101000,
            address_broadcast: 0b0111100,
            led_start_address: 0x07,
            out_start_address: 0x0F,
        };
        let resolved = resolve_address(&desc, address);
        Driver {
            device: DeviceInterface::new(resolved),
            trace: Ghost(Seq::empty()),
            variant: PhantomData,
            state: PhantomData,
        }
    }
}

impl LP50xx for LP5024 {
    open spec fn spec_descriptor() -> Descriptor {
        Descriptor {
            led_count: 24,
            rgb_count: 8,
            address_base: 0b0101000,
            address_broadcast: 0b0111100,
            led_start_address: 0x07,
            out_start_address: 0x0F,
        }
    }

    fn descriptor() -> Descriptor {
        Descriptor {
            led_count: 24,
            rgb_count: 8,
            address_base: 0b0101000,
            address_broadcast: 0b0111100,
            led_start_address: 0x07,
            out_start_address: 0x0F,
        }
    }

    fn new(address: Address) -> Driver<Self, Standby> {
        let desc = Descriptor {
            led_count: 24,
            rgb_count: 8,
            address_base: 0b0101000,
            address_broadcast: 0b0111100,
            led_start_address: 0x07,
            out_start_address: 0x0F,
        };
        let resolved = resolve_address(&desc, address);
        Driver {
            device: DeviceInterface::new(resolved),
            trace: Ghost(Seq::empty()),
            variant: PhantomData,
            state: PhantomData,
        }
    }
}

impl LP50xx for LP5030 {
    open spec fn spec_descriptor() -> Descriptor {
        Descriptor {
            led_count: 30,
            rgb_count: 10,
            address_base: 0b0110000,
            address_broadcast: 0b0011100,
            led_start_address: 0x08,
            out_start_address: 0x14,
        }
    }

    fn descriptor() -> Descriptor {
        Descriptor {
            led_count: 30,
            rgb_count: 10,
            address_base: 0b0110000,
            address_broadcast: 0b0011100,
            led_start_address: 0x08,
            out_start_address: 0x14,
        }
    }

    fn new(address: Address) -> Driver<Self, Standby> {
        let desc = Descriptor {
            led_count: 30,
            rgb_count: 10,
            address_base: 0b0110000,
            address_broadcast: 0b0011100,
            led_start_address: 0x08,
            out_start_address: 0x14,
        };
        let resolved = resolve_address(&desc, address);
        Driver {
            device: DeviceInterface::new(resolved),
            trace: Ghost(Seq::empty()),
            variant: PhantomData,
            state: PhantomData,
        }
    }
}

impl LP50xx for LP5036 {
    open spec fn spec_descriptor() -> Descriptor {
        Descriptor {
            led_count: 36,
            rgb_count: 12,
            address_base: 0b0110000,
            address_broadcast: 0b0011100,
            led_start_address: 0x08,
            out_start_address: 0x14,
        }
    }

    fn descriptor() -> Descriptor {
        Descriptor {
            led_count: 36,
            rgb_count: 12,
            address_base: 0b0110000,
            address_broadcast: 0b0011100,
            led_start_address: 0x08,
            out_start_address: 0x14,
        }
    }

    fn new(address: Address) -> Driver<Self, Standby> {
        let desc = Descriptor {
            led_count: 36,
            rgb_count: 12,
            address_base: 0b0110000,
            address_broadcast: 0b0011100,
            led_start_address: 0x08,
            out_start_address: 0x14,
        };
        let resolved = resolve_address(&desc, address);
        Driver {
            device: DeviceInterface::new(resolved),
            trace: Ghost(Seq::empty()),
            variant: PhantomData,
            state: PhantomData,
        }
    }
}

} // verus!
