//! The two-wire bus as the drivers see it: a capability to write to, read
//! from, or write to and then read from an addressed device, together
//! with the vocabulary in which the drivers' contracts describe the
//! transfers they ask of it.

use vstd::prelude::*;

verus! {

/// A bus that carries transfers to devices with 7-bit addresses.
///
/// Each call is one transaction on the bus. A read fills the whole
/// buffer it is given, or fails. Nothing is promised of the bytes read,
/// nor of success: a failure is the transport's own affair and is handed
/// on as it is. The one clause on the reading methods says what the type
/// of the buffer already guarantees.
pub trait Bus {
    /// The transport's own error.
    type Error;

    /// Writes `bytes` to the device at `address`.
    fn write(&mut self, address: u8, bytes: &[u8]) -> Result<(), Self::Error>;

    /// Reads from the device at `address` until `buffer` is full.
    fn read(&mut self, address: u8, buffer: &mut [u8]) -> (r: Result<(), Self::Error>)
        ensures
            final(buffer)@.len() == old(buffer)@.len(),
    ;

    /// Writes `bytes` to the device at `address`, then reads from it
    /// until `buffer` is full, without releasing the bus in between.
    fn write_read(&mut self, address: u8, bytes: &[u8], buffer: &mut [u8]) -> (r: Result<
        (),
        Self::Error,
    >)
        ensures
            final(buffer)@.len() == old(buffer)@.len(),
    ;
}

/// What a transfer asks of the bus.
pub ghost enum Operation {
    /// Write the bytes, read nothing.
    Write(Seq<u8>),
    /// Read that many bytes, write nothing.
    Read(nat),
    /// Write the bytes, then read that many in the same transaction.
    WriteRead(Seq<u8>, nat),
}

/// One transfer, with what came of it: the bytes read (none for a
/// write), or the transport's own error.
pub ghost struct Transfer<E> {
    pub address: u8,
    pub operation: Operation,
    pub outcome: Result<Seq<u8>, E>,
}

impl<E> Transfer<E> {
    /// The number of bytes that the transfer asks to read.
    pub open spec fn requested(self) -> nat {
        match self.operation {
            Operation::Write(_) => 0,
            Operation::Read(len) => len,
            Operation::WriteRead(_, len) => len,
        }
    }

    /// The transfer went to `address` and asked for `operation`, and where
    /// it succeeded it read as many bytes as it asked for.
    pub open spec fn asks(self, address: u8, operation: Operation) -> bool {
        &&& self.address == address
        &&& self.operation == operation
        &&& self.outcome matches Ok(bytes) ==> bytes.len() == self.requested()
    }
}

/// What the bus reported for a write, as the outcome of a transfer.
pub open spec fn write_outcome<E>(reported: Result<(), E>) -> Result<Seq<u8>, E> {
    match reported {
        Ok(_) => Ok(Seq::empty()),
        Err(e) => Err(e),
    }
}

/// What the bus reported for a read, as the outcome of a transfer.
pub open spec fn read_outcome<E>(reported: Result<Vec<u8>, E>) -> Result<Seq<u8>, E> {
    match reported {
        Ok(bytes) => Ok(bytes@),
        Err(e) => Err(e),
    }
}

} // verus!
