use vstd::prelude::*;

verus! {

/// One I2C bus transaction, addressed to a 7-bit device address.
///
/// The library never touches a bus itself: every driver operation
/// returns the transaction it wants performed, and the surrounding
/// program carries it out on a real transport.
#[derive(Debug, Clone, PartialEq)]
pub enum BusOp {
    /// Issue START, address + write, all bytes, STOP.
    Write { addr: u8, bytes: Vec<u8> },
    /// Issue START, address + write, the bytes, repeated START,
    /// address + read, `read_len` bytes, STOP.
    WriteRead { addr: u8, bytes: Vec<u8>, read_len: usize },
}

/// Mathematical image of a [`BusOp`].
pub enum BusOpView {
    Write { addr: u8, bytes: Seq<u8> },
    WriteRead { addr: u8, bytes: Seq<u8>, read_len: nat },
}

impl View for BusOp {
    type V = BusOpView;

    open spec fn view(&self) -> BusOpView {
        match self {
            BusOp::Write { addr, bytes } => BusOpView::Write { addr: *addr, bytes: bytes@ },
            BusOp::WriteRead { addr, bytes, read_len } => BusOpView::WriteRead {
                addr: *addr,
                bytes: bytes@,
                read_len: *read_len as nat,
            },
        }
    }
}

} // verus!
