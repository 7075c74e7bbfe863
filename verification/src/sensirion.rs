//! The transaction engine shared by the drivers: it frames commands onto
//! the bus, reads responses back, and hands out only words whose checksums
//! it has verified.

use vstd::prelude::*;
use crate::bus::{read_outcome, write_outcome, Bus, Operation, Transfer};
use crate::checksum::{compute, crc8, intact, verify};
use crate::wire::{
    all_intact,
    decode_words,
    decoded,
    frame_with_arg,
    frame_with_two_args,
    wire_word,
    words_of,
    words_view,
};

pub use crate::error::Error;
pub use crate::wire::Cmd;

verus! {

/// What the engine reports for a transfer that only wrote.
pub open spec fn acknowledged<E>(outcome: Result<Seq<u8>, E>) -> Result<(), Error<E>> {
    match outcome {
        Ok(_) => Ok(()),
        Err(e) => Err(Error::Transport(e)),
    }
}

/// What the engine reports for a transfer that read words: the transport's
/// error if the transfer failed, else what the bytes decode to.
pub open spec fn received<E>(outcome: Result<Seq<u8>, E>) -> Result<Seq<u16>, Error<E>> {
    match outcome {
        Ok(bytes) => decoded(bytes),
        Err(e) => Err(Error::Transport(e)),
    }
}

/// What the engine reports for a transfer that read a single word.
pub open spec fn received_word<E>(outcome: Result<Seq<u8>, E>) -> Result<u16, Error<E>> {
    match received(outcome) {
        Ok(words) => Ok(words[0]),
        Err(e) => Err(e),
    }
}

/// A result that holds three words, with the words as a sequence.
pub open spec fn triple_view<E>(result: Result<[u16; 3], Error<E>>) -> Result<Seq<u16>, Error<E>> {
    match result {
        Ok(words) => Ok(words@),
        Err(e) => Err(e),
    }
}

/// Turns what the bus reported for a write into the engine's result.
pub fn acknowledge<E>(reported: Result<(), E>) -> (r: Result<(), Error<E>>)
    ensures
        r == acknowledged(write_outcome(reported)),
{
    match reported {
        Ok(_) => Ok(()),
        Err(e) => Err(Error::Transport(e)),
    }
}

/// Turns what the bus reported for a read into the engine's result: a
/// transport error is passed on, and bytes are checked and decoded.
pub fn receive<E>(reported: Result<Vec<u8>, E>) -> (r: Result<Vec<u16>, Error<E>>)
    ensures
        words_view(r) == received(read_outcome(reported)),
{
    match reported {
        Ok(bytes) => decode_words(bytes.as_slice()),
        Err(e) => Err(Error::Transport(e)),
    }
}

/// A read ends in exactly one of three ways. It hands out words if and
/// only if the transfer succeeded and every word is intact, and then
/// all of them; it fails with the transport's error if and only if the
/// transfer failed; it fails with `InvalidCrc` if and only if the
/// transfer succeeded and some word is damaged. No other error comes of
/// it.
pub proof fn lemma_read_ends_in_one_way<E>(outcome: Result<Seq<u8>, E>)
    ensures
        received(outcome) is Ok <==> (outcome is Ok && all_intact(outcome->Ok_0)),
        received(outcome) is Ok ==> received(outcome)->Ok_0 == words_of(outcome->Ok_0),
        received(outcome) == Err::<Seq<u16>, Error<E>>(Error::InvalidCrc) <==> (outcome is Ok
            && !all_intact(outcome->Ok_0)),
        outcome is Err <==> received(outcome) == Err::<Seq<u16>, Error<E>>(
            Error::Transport(outcome->Err_0),
        ),
        received(outcome) is Err ==> received(outcome)->Err_0 is InvalidCrc || received(
            outcome,
        )->Err_0 is Transport,
{
}

/// The 48-bit serial number that three words spell, most significant
/// word first.
pub open spec fn spec_serial_number(w0: u16, w1: u16, w2: u16) -> u64 {
    (w0 * 0x1_0000_0000 + w1 * 0x1_0000 + w2) as u64
}

/// Puts the three words of a serial number together, most significant
/// word first.
pub fn serial_number(words: &[u16; 3]) -> (r: u64)
    ensures
        r == spec_serial_number(words[0], words[1], words[2]),
        r < 0x1_0000_0000_0000,
{
    (words[0] as u64) * 0x1_0000_0000 + (words[1] as u64) * 0x1_0000 + (words[2] as u64)
}

/// The serial number is its three words side by side: the first shifted
/// up by 32 bits, the second by 16, the third as it is.
pub proof fn lemma_serial_number_concatenates(w0: u16, w1: u16, w2: u16)
    ensures
        spec_serial_number(w0, w1, w2) == (w0 as u64) << 32 | (w1 as u64) << 16 | (w2 as u64),
{
    assert((w0 as u64) << 32 | (w1 as u64) << 16 | (w2 as u64) == (w0 as u64) * 0x1_0000_0000
        + (w1 as u64) * 0x1_0000 + (w2 as u64)) by (bit_vector);
}

/// A device on the bus, reached at a fixed address.
///
/// The sensor keeps a record of the transfers it has asked of the bus,
/// each with what the bus reported for it. The record is what the
/// contracts of its operations speak of; it takes no room in the running
/// program.
pub struct Sensor<B: Bus> {
    bus: B,
    addr: u8,
    log: Ghost<Seq<Transfer<B::Error>>>,
}

impl<B: Bus> Sensor<B> {
    /// The bus that the sensor is reached through.
    pub closed spec fn bus(&self) -> B {
        self.bus
    }

    /// The address of the device on the bus.
    pub closed spec fn address(&self) -> u8 {
        self.addr
    }

    /// The transfers that the sensor has asked of the bus so far, oldest
    /// first.
    pub closed spec fn transfers(&self) -> Seq<Transfer<B::Error>> {
        self.log@
    }

    /// Takes hold of `bus` to talk to the device at `addr`. Nothing is
    /// transferred yet.
    pub fn new(bus: B, addr: u8) -> (s: Self)
        ensures
            s.bus() == bus,
            s.address() == addr,
            s.transfers() == Seq::<Transfer<B::Error>>::empty(),
    {
        Self { bus, addr, log: Ghost(Seq::empty()) }
    }

    /// The checksum of the two data bytes of a word.
    pub fn crc(data: &[u8; 2]) -> (r: u8)
        ensures
            r == crc8(data[0], data[1]),
    {
        compute(data[0], data[1])
    }

    /// Checks a word as it came off the wire: two data bytes and their
    /// checksum.
    pub fn check_crc<E>(data: &[u8; 3]) -> (r: Result<(), Error<E>>)
        ensures
            intact(data[0], data[1], data[2]) ==> r == Ok::<(), Error<E>>(()),
            !intact(data[0], data[1], data[2]) ==> r == Err::<(), Error<E>>(Error::InvalidCrc),
    {
        if verify(data[0], data[1], data[2]) {
            Ok(())
        } else {
            Err(Error::InvalidCrc)
        }
    }

    /// The one place where bytes are written to the bus: the call is made
    /// and entered in the record with what it reported.
    fn write_bytes(&mut self, bytes: &[u8]) -> (reported: Result<(), B::Error>)
        ensures
            final(self).address() == old(self).address(),
            final(self).transfers() == old(self).transfers().push(
                (Transfer {
                    address: old(self).address(),
                    operation: Operation::Write(bytes@),
                    outcome: write_outcome(reported),
                }),
            ),
    {
        let reported = self.bus.write(self.addr, bytes);
        proof {
            self.log@ = self.log@.push(
                Transfer {
                    address: self.addr,
                    operation: Operation::Write(bytes@),
                    outcome: write_outcome(reported),
                },
            );
        }
        reported
    }

    /// The one place where bytes are read from the bus, after `command`
    /// has been written in the same transaction if there is one: the
    /// call is made and entered in the record with what it reported. The
    /// bytes are handed out only if the bus reported success.
    fn read_bytes(&mut self, command: Option<&Cmd>, len: usize) -> (reported: Result<
        Vec<u8>,
        B::Error,
    >)
        ensures
            final(self).address() == old(self).address(),
            reported matches Ok(bytes) ==> bytes@.len() == len,
            final(self).transfers() == old(self).transfers().push(
                (Transfer {
                    address: old(self).address(),
                    operation: match command {
                        Some(opcode) => Operation::WriteRead(opcode@, len as nat),
                        None => Operation::Read(len as nat),
                    },
                    outcome: read_outcome(reported),
                }),
            ),
    {
        let mut buffer: Vec<u8> = vec![0u8; len];
        let filled = match command {
            Some(opcode) => self.bus.write_read(
                self.addr,
                opcode.as_slice(),
                buffer.as_mut_slice(),
            ),
            None => self.bus.read(self.addr, buffer.as_mut_slice()),
        };
        let reported = match filled {
            Ok(_) => Ok(buffer),
            Err(e) => Err(e),
        };
        proof {
            self.log@ = self.log@.push(
                Transfer {
                    address: self.addr,
                    operation: match command {
                        Some(opcode) => Operation::WriteRead(opcode@, len as nat),
                        None => Operation::Read(len as nat),
                    },
                    outcome: read_outcome(reported),
                },
            );
        }
        reported
    }

    /// `self` is `before` after `count` more transfers on the same bus.
    pub open spec fn extends(&self, before: &Self, count: nat) -> bool {
        &&& self.address() == before.address()
        &&& self.transfers().len() == before.transfers().len() + count
        &&& self.transfers().subrange(0, before.transfers().len() as int) =~= before.transfers()
    }

    /// The `index`-th of the transfers made since `before`.
    pub open spec fn transfer_since(&self, before: &Self, index: int) -> Transfer<B::Error> {
        self.transfers()[before.transfers().len() + index]
    }

    /// `self` is `before` after exactly one more transfer, which asked the
    /// sensor for `operation`.
    pub open spec fn after(&self, before: &Self, operation: Operation) -> bool {
        &&& self.extends(before, 1)
        &&& self.transfer_since(before, 0).asks(before.address(), operation)
    }

    /// What came of the latest transfer.
    pub open spec fn outcome(&self) -> Result<Seq<u8>, B::Error> {
        self.transfers().last().outcome
    }

    /// `self` is `before` after a command was written to the sensor with
    /// `command` and, if and only if that transfer succeeded, a second
    /// transfer asked the sensor for `request`.
    pub open spec fn after_exchange(
        &self,
        before: &Self,
        command: Operation,
        request: Operation,
    ) -> bool {
        &&& self.transfer_since(before, 0).asks(before.address(), command)
        &&& match self.transfer_since(before, 0).outcome {
            Ok(_) => {
                &&& self.extends(before, 2)
                &&& self.transfer_since(before, 1).asks(before.address(), request)
            },
            Err(_) => self.extends(before, 1),
        }
    }

    /// The word that an exchange made since `before` came to: the
    /// transport's error if writing the command failed, else what the
    /// second transfer gave.
    pub open spec fn exchanged_word(&self, before: &Self) -> Result<u16, Error<B::Error>> {
        match self.transfer_since(before, 0).outcome {
            Ok(_) => received_word(self.transfer_since(before, 1).outcome),
            Err(e) => Err(Error::Transport(e)),
        }
    }

    /// Sends a command that takes no argument and has no response: the
    /// two bytes of the opcode are written, nothing is read.
    pub fn send(&mut self, opcode: &Cmd) -> (r: Result<(), Error<B::Error>>)
        ensures
            final(self).after(old(self), Operation::Write(opcode@)),
            r == acknowledged(final(self).outcome()),
    {
        let reported = self.write_bytes(opcode.as_slice());
        acknowledge(reported)
    }

    /// Sends a command with one argument: the opcode and the argument as
    /// a word with its checksum are written, five bytes in all, and
    /// nothing is read.
    pub fn send_with_arg(&mut self, opcode: &Cmd, arg: u16) -> (r: Result<(), Error<B::Error>>)
        ensures
            final(self).after(old(self), Operation::Write(opcode@ + wire_word(arg))),
            r == acknowledged(final(self).outcome()),
    {
        let frame = frame_with_arg(opcode, arg);
        let reported = self.write_bytes(frame.as_slice());
        acknowledge(reported)
    }

    /// Sends a command with two arguments: the opcode and each argument
    /// as a word with its own checksum are written, eight bytes in all,
    /// and nothing is read.
    pub fn send_with_two_args(&mut self, opcode: &Cmd, arg0: u16, arg1: u16) -> (r: Result<
        (),
        Error<B::Error>,
    >)
        ensures
            final(self).after(
                old(self),
                Operation::Write(opcode@ + wire_word(arg0) + wire_word(arg1)),
            ),
            r == acknowledged(final(self).outcome()),
    {
        let frame = frame_with_two_args(opcode, arg0, arg1);
        let reported = self.write_bytes(frame.as_slice());
        acknowledge(reported)
    }

    /// Sends a command and reads its response of `n` words in the same
    /// transaction.
    ///
    /// The words are handed out only if the transfer succeeded and every
    /// one of them is intact; a failed transfer gives the transport's
    /// error, a damaged word `InvalidCrc`.
    pub fn query(&mut self, opcode: &Cmd, n: usize) -> (r: Result<Vec<u16>, Error<B::Error>>)
        requires
            3 * n <= usize::MAX,
        ensures
            final(self).after(old(self), Operation::WriteRead(opcode@, 3 * n as nat)),
            words_view(r) == received(final(self).outcome()),
            r matches Ok(words) ==> words@.len() == n,
    {
        let reported = self.read_bytes(Some(opcode), 3 * n);
        receive(reported)
    }

    /// Reads `n` words that the device holds ready after an earlier
    /// command, without writing anything first.
    ///
    /// The words are handed out only if the transfer succeeded and every
    /// one of them is intact; a failed transfer gives the transport's
    /// error, a damaged word `InvalidCrc`.
    pub fn read_pending(&mut self, n: usize) -> (r: Result<Vec<u16>, Error<B::Error>>)
        requires
            3 * n <= usize::MAX,
        ensures
            final(self).after(old(self), Operation::Read(3 * n as nat)),
            words_view(r) == received(final(self).outcome()),
            r matches Ok(words) ==> words@.len() == n,
    {
        let reported = self.read_bytes(None, 3 * n);
        receive(reported)
    }

    /// Sends a command and reads the single word of its response.
    pub fn read_word(&mut self, cmd: &Cmd) -> (r: Result<u16, Error<B::Error>>)
        ensures
            final(self).after(old(self), Operation::WriteRead(cmd@, 3)),
            r == received_word(final(self).outcome()),
    {
        match self.query(cmd, 1) {
            Ok(words) => Ok(words[0]),
            Err(e) => Err(e),
        }
    }

    /// Sends a command and reads the three words of its response.
    pub fn read_three_words(&mut self, cmd: &Cmd) -> (r: Result<[u16; 3], Error<B::Error>>)
        ensures
            final(self).after(old(self), Operation::WriteRead(cmd@, 9)),
            triple_view(r) == received(final(self).outcome()),
    {
        match self.query(cmd, 3) {
            Ok(words) => {
                let triple = [words[0], words[1], words[2]];
                assert(triple@ =~= words@);
                Ok(triple)
            },
            Err(e) => Err(e),
        }
    }

    /// Reads the single word that the device holds ready after an earlier
    /// command.
    pub fn read_response_word(&mut self) -> (r: Result<u16, Error<B::Error>>)
        ensures
            final(self).after(old(self), Operation::Read(3)),
            r == received_word(final(self).outcome()),
    {
        match self.read_pending(1) {
            Ok(words) => Ok(words[0]),
            Err(e) => Err(e),
        }
    }
}

} // verus!
