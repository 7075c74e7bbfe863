//! A stand-in for the bus that answers every read with one canned
//! response, for trying the drivers out without a device.

use vstd::prelude::*;
use crate::bus::Bus;

verus! {

/// The one way in which the stand-in bus fails.
#[derive(Debug, Clone, Copy, PartialEq, Eq)]
pub enum DummyError {
    /// A read asked for a number of bytes other than the canned response
    /// has.
    InvalidTest,
}

/// A bus with no device behind it. Writes succeed and go nowhere; a read
/// is answered with the canned response if it asks for exactly that many
/// bytes, and fails otherwise.
pub struct DummyBus<'a> {
    /// The bytes that every read is answered with.
    pub response: &'a [u8],
}

impl<'a> DummyBus<'a> {
    /// Whether a read of `len` bytes is answered.
    pub open spec fn answers(&self, len: nat) -> bool {
        len == self.response@.len()
    }

    fn respond(&self, buffer: &mut [u8]) -> (r: Result<(), DummyError>)
        ensures
            final(buffer)@.len() == old(buffer)@.len(),
            self.answers(old(buffer)@.len()) ==> r is Ok && final(buffer)@ == self.response@,
            !self.answers(old(buffer)@.len()) ==> r == Err::<(), DummyError>(
                DummyError::InvalidTest,
            ),
    {
        let len = buffer.len();
        if len != self.response.len() {
            return Err(DummyError::InvalidTest);
        }
        let mut i: usize = 0;
        while i < len
            invariant
                i <= len,
                len == buffer@.len(),
                len == self.response@.len(),
                forall|j: int| 0 <= j < i ==> buffer@[j] == self.response@[j],
            decreases len - i,
        {
            buffer[i] = self.response[i];
            i = i + 1;
        }
        assert(buffer@ =~= self.response@);
        Ok(())
    }
}

impl<'a> Bus for DummyBus<'a> {
    type Error = DummyError;

    fn write(&mut self, address: u8, bytes: &[u8]) -> (r: Result<(), DummyError>)
        ensures
            r is Ok,
            *final(self) == *old(self),
    {
        Ok(())
    }

    fn read(&mut self, address: u8, buffer: &mut [u8]) -> (r: Result<(), DummyError>)
        ensures
            *final(self) == *old(self),
            old(self).answers(old(buffer)@.len()) ==> r is Ok && final(buffer)@ == old(
                self,
            ).response@,
            !old(self).answers(old(buffer)@.len()) ==> r == Err::<(), DummyError>(
                DummyError::InvalidTest,
            ),
    {
        self.respond(buffer)
    }

    fn write_read(&mut self, address: u8, bytes: &[u8], buffer: &mut [u8]) -> (r: Result<
        (),
        DummyError,
    >)
        ensures
            *final(self) == *old(self),
            old(self).answers(old(buffer)@.len()) ==> r is Ok && final(buffer)@ == old(
                self,
            ).response@,
            !old(self).answers(old(buffer)@.len()) ==> r == Err::<(), DummyError>(
                DummyError::InvalidTest,
            ),
    {
        self.respond(buffer)
    }
}

} // verus!
