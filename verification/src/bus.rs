//! Abstract bus transport: addressed write and write-then-read operations.
//!
//! The driver never performs bus traffic itself; it is generic over an
//! implementation of [`Transport`] supplied by the caller (for example an
//! adapter over a hardware bus peripheral). The trait tracks, as ghost
//! state, the history of transactions issued through it, so that the
//! driver's contracts can pin down exactly which transactions each
//! operation performs.

use vstd::prelude::*;

verus! {

/// One completed bus transaction, as recorded in a transport's history.
#[verifier::ext_equal]
pub enum BusOp {
    /// A byte sequence sent to the device at `addr`.
    Write { addr: u8, data: Seq<u8> },
    /// A byte sequence sent to the device at `addr`, immediately followed by
    /// reading back the bytes `received`.
    WriteRead { addr: u8, sent: Seq<u8>, received: Seq<u8> },
}

/// The ghost transaction history of a transport.
pub type History = Seq<BusOp>;

/// A bus master addressed by 7-bit device addresses.
///
/// `history()` is the ghost sequence of transactions completed so far. A
/// successful operation appends exactly its own transaction; about a failed
/// operation nothing is promised, and the caller must treat the device state
/// as indeterminate.
pub trait Transport: Sized {
    /// Error raised by the underlying bus on a failed transaction.
    type BusError;

    /// The transactions completed through this transport so far.
    spec fn history(&self) -> History;

    /// Sends `data` to the device at `addr`.
    fn bus_write(&mut self, addr: u8, data: &[u8]) -> (r: Result<(), Self::BusError>)
        ensures
            r is Ok ==> final(self).history() == old(self).history().push(
                BusOp::Write { addr, data: data@ },
            ),
    ;

    /// Sends `sent` to the device at `addr`, then reads back exactly
    /// `read_len` bytes.
    fn bus_write_read(&mut self, addr: u8, sent: &[u8], read_len: usize) -> (r: Result<
        Vec<u8>,
        Self::BusError,
    >)
        ensures
            r matches Ok(received) ==> received@.len() == read_len && final(self).history()
                == old(self).history().push(
                BusOp::WriteRead { addr, sent: sent@, received: received@ },
            ),
    ;
}

} // verus!
