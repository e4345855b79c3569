use vstd::prelude::*;

use crate::bus::{BusOp, BusOpView};
use crate::ll::DeviceError;

verus! {

/// The largest bus write any operation needs: one register-address
/// byte plus the largest per-variant brightness block (twelve bytes).
pub const MAX_WRITE_SIZE: usize = 13;

#[verifier::external_type_specification]
#[verifier::external_body]
#[verifier::reject_recursive_types(T)]
pub struct ExHeaplessVec<T, const N: usize>(heapless::Vec<T, N>);

/// The bytes a transfer buffer holds, oldest first.
pub uninterp spec fn frame_bytes(v: heapless::Vec<u8, 13>) -> Seq<u8>;

/// Relies on heapless::Vec::new: the new vector is empty.
#[verifier::external_body]
fn frame_new() -> (r: heapless::Vec<u8, 13>)
    ensures
        frame_bytes(r) == Seq::<u8>::empty(),
{
    heapless::Vec::new()
}

/// Relies on heapless::Vec::push: appends the item when the vector is
/// not at capacity; otherwise returns the item back and changes
/// nothing.
#[verifier::external_body]
fn frame_push(v: &mut heapless::Vec<u8, 13>, byte: u8) -> (r: Result<(), u8>)
    ensures
        frame_bytes(*old(v)).len() < 13 ==> r is Ok && frame_bytes(*final(v)) == frame_bytes(
            *old(v),
        ).push(byte),
        frame_bytes(*old(v)).len() >= 13 ==> (r matches Err(b) && b == byte && frame_bytes(
            *final(v),
        ) == frame_bytes(*old(v))),
{
    v.push(byte)
}

/// Relies on heapless::Vec::extend_from_slice: appends every byte of
/// the slice when they all fit; otherwise changes nothing and reports
/// the error.
#[verifier::external_body]
fn frame_extend_from_slice(v: &mut heapless::Vec<u8, 13>, other: &[u8]) -> (r: Result<(), ()>)
    ensures
        frame_bytes(*old(v)).len() + other@.len() <= 13 ==> r is Ok && frame_bytes(*final(v))
            == frame_bytes(*old(v)) + other@,
        frame_bytes(*old(v)).len() + other@.len() > 13 ==> r is Err && frame_bytes(*final(v))
            == frame_bytes(*old(v)),
{
    v.extend_from_slice(other)
}

/// Relies on heapless::Vec::as_slice: the slice holds exactly the
/// vector's bytes.
#[verifier::external_body]
fn frame_as_slice(v: &heapless::Vec<u8, 13>) -> (r: &[u8])
    ensures
        r@ == frame_bytes(*v),
{
    v.as_slice()
}

/// The register transport adapter: frames a logical register
/// operation as one bus transaction addressed to a fixed device.
pub struct DeviceInterface {
    /// The resolved 7-bit bus address of the device.
    pub address: u8,
}

impl DeviceInterface {
    /// Construct an adapter for the device at the given bus address.
    pub fn new(address: u8) -> (r: Self)
        ensures
            r.address == address,
    {
        DeviceInterface { address }
    }

    /// Frame a register write: one contiguous buffer of the register
    /// address followed by the payload, bounded by the transfer
    /// buffer's capacity, to be issued as a single bus write.
    pub fn write_register<T>(&self, address: u8, data: &[u8]) -> (r: Result<
        BusOp,
        DeviceError<T>,
    >)
        ensures
            1 + data@.len() <= MAX_WRITE_SIZE ==> (r matches Ok(op) && op@ == (BusOpView::Write {
                addr: self.address,
                bytes: seq![address] + data@,
            })),
            1 + data@.len() > MAX_WRITE_SIZE ==> (r matches Err(e) && e is BufferTooSmall),
    {
        let mut frame = frame_new();
        match frame_push(&mut frame, address) {
            Ok(()) => {},
            Err(_) => {
                return Err(DeviceError::BufferTooSmall);
            },
        }
        match frame_extend_from_slice(&mut frame, data) {
            Ok(()) => {},
            Err(()) => {
                return Err(DeviceError::BufferTooSmall);
            },
        }
        let bytes = vstd::slice::slice_to_vec(frame_as_slice(&frame));
        proof {
            assert(bytes@ =~= seq![address] + data@);
        }
        Ok(BusOp::Write { addr: self.address, bytes })
    }

    /// Frame a register write whose payload is known to fit the
    /// transfer buffer, as every driver operation's payload does.
    pub fn write(&self, address: u8, data: &[u8]) -> (r: BusOp)
        requires
            1 + data@.len() <= MAX_WRITE_SIZE,
        ensures
            r@ == (BusOpView::Write { addr: self.address, bytes: seq![address] + data@ }),
    {
        let framed = self.write_register::<()>(address, data);
        match framed {
            Ok(op) => op,
            Err(_) => vstd::pervasive::unreached(),
        }
    }

    /// Frame a register read: a combined transaction that writes the
    /// single register-address byte, then reads `read_len` bytes.
    pub fn read_register(&self, address: u8, read_len: usize) -> (r: BusOp)
        ensures
            r@ == (BusOpView::WriteRead {
                addr: self.address,
                bytes: seq![address],
                read_len: read_len as nat,
            }),
    {
        let mut bytes: Vec<u8> = Vec::new();
        bytes.push(address);
        proof {
            assert(bytes@ =~= seq![address]);
        }
        BusOp::WriteRead { addr: self.address, bytes, read_len }
    }
}

} // verus!
