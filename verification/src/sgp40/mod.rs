//! Driver for the SGP40 VOC sensor.

use vstd::prelude::*;
use vstd::arithmetic::div_mod::lemma_div_is_ordered;
use crate::bus::{Bus, Operation, Transfer};
use crate::sensirion::{
    acknowledged,
    received,
    received_word,
    serial_number,
    spec_serial_number,
    Error,
    Sensor,
};
use crate::wire::wire_word;

pub mod commands;

verus! {

/// The address of every SGP40 on the bus.
pub const ADDRESS: u8 = 0x59;

/// What the response word of the self-test decodes to, by its top byte.
pub open spec fn spec_self_test_result<E>(word: u16) -> Result<bool, Error<E>> {
    if word / 0x100 == 0xd4 {
        Ok(true)
    } else if word / 0x100 == 0x4b {
        Ok(false)
    } else {
        Err(Error::InvalidResponse)
    }
}

/// Decodes the response word of the self-test: a top byte of `0xd4`
/// reports that all tests passed, one of `0x4b` that some test failed,
/// and any other is an invalid response.
pub fn self_test_result<E>(word: u16) -> (r: Result<bool, Error<E>>)
    ensures
        r == spec_self_test_result::<E>(word),
{
    let top: u16 = word / 0x100;
    if top == 0xd4 {
        Ok(true)
    } else if top == 0x4b {
        Ok(false)
    } else {
        Err(Error::InvalidResponse)
    }
}

/// The compensation value for a relative humidity given in thousandths
/// of a percent: `humidity * 65535 / 100` for the humidity in percent,
/// rounded down, and held to the range of a word.
pub open spec fn spec_humidity_ticks(millipercent: int) -> int {
    let ticks = millipercent * 65_535 / 100_000;
    if ticks < 0 {
        0
    } else if ticks > 0xffff {
        0xffff
    } else {
        ticks
    }
}

/// The compensation value for a temperature given in thousandths of a
/// degree Celsius: `(temperature + 45) * 65535 / 175` for the
/// temperature in degrees, rounded down, and held to the range of a word.
pub open spec fn spec_temperature_ticks(millicelsius: int) -> int {
    let ticks = (millicelsius + 45_000) * 65_535 / 175_000;
    if ticks < 0 {
        0
    } else if ticks > 0xffff {
        0xffff
    } else {
        ticks
    }
}

/// Converts a relative humidity in thousandths of a percent to the
/// compensation value that the chip takes. Humidities below 0 % give 0,
/// those above 100 % give `0xffff`.
pub fn humidity_ticks(millipercent: i32) -> (r: u16)
    ensures
        r == spec_humidity_ticks(millipercent as int),
{
    if millipercent <= 0 {
        0
    } else if millipercent >= 100_000 {
        0xffff
    } else {
        ((millipercent as u64) * 65_535u64 / 100_000u64) as u16
    }
}

/// Converts a temperature in thousandths of a degree Celsius to the
/// compensation value that the chip takes. Temperatures below -45 °C
/// give 0, those above 130 °C give `0xffff`.
pub fn temperature_ticks(millicelsius: i32) -> (r: u16)
    ensures
        r == spec_temperature_ticks(millicelsius as int),
{
    if millicelsius <= -45_000 {
        0
    } else if millicelsius >= 130_000 {
        0xffff
    } else {
        (((millicelsius + 45_000) as u64) * 65_535u64 / 175_000u64) as u16
    }
}

/// A higher humidity never gives a lower compensation value.
pub proof fn lemma_humidity_ticks_monotonic(lower: int, higher: int)
    requires
        lower <= higher,
    ensures
        spec_humidity_ticks(lower) <= spec_humidity_ticks(higher),
{
    lemma_div_is_ordered(lower * 65_535, higher * 65_535, 100_000);
}

/// A higher temperature never gives a lower compensation value.
pub proof fn lemma_temperature_ticks_monotonic(lower: int, higher: int)
    requires
        lower <= higher,
    ensures
        spec_temperature_ticks(lower) <= spec_temperature_ticks(higher),
{
    lemma_div_is_ordered((lower + 45_000) * 65_535, (higher + 45_000) * 65_535, 175_000);
}

/// The compensation values stay within a word: from 0 % and -45 °C
/// downwards they are 0, from 100 % and 130 °C upwards `0xffff`.
pub proof fn lemma_ticks_clamped(quantity: int)
    ensures
        0 <= spec_humidity_ticks(quantity) <= 0xffff,
        0 <= spec_temperature_ticks(quantity) <= 0xffff,
        quantity <= 0 ==> spec_humidity_ticks(quantity) == 0,
        quantity >= 100_000 ==> spec_humidity_ticks(quantity) == 0xffff,
        quantity <= -45_000 ==> spec_temperature_ticks(quantity) == 0,
        quantity >= 130_000 ==> spec_temperature_ticks(quantity) == 0xffff,
{
    if quantity <= 0 {
        lemma_humidity_ticks_monotonic(quantity, 0);
    }
    if quantity >= 100_000 {
        lemma_humidity_ticks_monotonic(100_000, quantity);
    }
    if quantity <= -45_000 {
        lemma_temperature_ticks_monotonic(quantity, -45_000);
    }
    if quantity >= 130_000 {
        lemma_temperature_ticks_monotonic(130_000, quantity);
    }
}

/// The top byte of a word is the word shifted down by eight bits.
pub proof fn lemma_self_test_reads_top_byte(word: u16)
    ensures
        word / 0x100 == word >> 8,
{
    assert(word / 0x100 == word >> 8) by (bit_vector);
}

/// An SGP40 on a bus.
pub struct SGP40<B: Bus> {
    sensor: Sensor<B>,
}

impl<B: Bus> SGP40<B> {
    /// The engine that carries the driver's transactions.
    pub closed spec fn sensor(&self) -> Sensor<B> {
        self.sensor
    }

    /// The address at which the driver reaches the chip: `ADDRESS` from
    /// `new` on, since no operation changes it.
    pub open spec fn address(&self) -> u8 {
        self.sensor().address()
    }

    /// The transfers that the driver has asked of the bus so far, oldest
    /// first.
    pub open spec fn transfers(&self) -> Seq<Transfer<B::Error>> {
        self.sensor().transfers()
    }

    /// `self` is `before` after exactly one more transfer, which asked the
    /// chip for `operation`.
    pub open spec fn after(&self, before: &Self, operation: Operation) -> bool {
        self.sensor().after(&before.sensor(), operation)
    }

    /// What came of the latest transfer.
    pub open spec fn outcome(&self) -> Result<Seq<u8>, B::Error> {
        self.sensor().outcome()
    }

    /// Takes hold of `i2c` to talk to the chip. Nothing is transferred yet.
    pub fn new(i2c: B) -> (s: Self)
        ensures
            s.sensor().bus() == i2c,
            s.address() == ADDRESS,
            s.transfers() == Seq::<Transfer<B::Error>>::empty(),
    {
        Self { sensor: Sensor::new(i2c, ADDRESS) }
    }

    /// Runs the self-test of the chip: `true` if all tests passed,
    /// `false` if one failed.
    pub fn self_test(&mut self) -> (r: Result<bool, Error<B::Error>>)
        ensures
            final(self).after(old(self), Operation::WriteRead(commands::EXECUTE_SELF_TEST@, 3)),
            r == match received_word(final(self).outcome()) {
                Ok(word) => spec_self_test_result(word),
                Err(e) => Err(e),
            },
    {
        match self.sensor.read_word(&commands::EXECUTE_SELF_TEST) {
            Ok(word) => self_test_result(word),
            Err(e) => Err(e),
        }
    }

    /// Reads the serial number of the chip, which identifies it and shows
    /// that it is present.
    pub fn get_serial_number(&mut self) -> (r: Result<u64, Error<B::Error>>)
        ensures
            final(self).after(old(self), Operation::WriteRead(commands::GET_SERIAL_NUMBER@, 9)),
            r == match received(final(self).outcome()) {
                Ok(words) => Ok(spec_serial_number(words[0], words[1], words[2])),
                Err(e) => Err(e),
            },
    {
        match self.sensor.read_three_words(&commands::GET_SERIAL_NUMBER) {
            Ok(words) => Ok(serial_number(&words)),
            Err(e) => Err(e),
        }
    }

    /// Turns the hotplate off and puts the chip in idle mode.
    pub fn turn_heater_off(&mut self) -> (r: Result<(), Error<B::Error>>)
        ensures
            final(self).after(old(self), Operation::Write(commands::TURN_HEATER_OFF@)),
            r == acknowledged(final(self).outcome()),
    {
        self.sensor.send(&commands::TURN_HEATER_OFF)
    }

    /// Measures the raw signal with the compensation values given as the
    /// chip takes them.
    ///
    /// The command is written with the two values as its arguments,
    /// humidity first. If that succeeds the one word of the result is
    /// asked for, and handed out as it is.
    pub fn measure_raw_signal_with_ticks(&mut self, humidity: u16, temperature: u16) -> (r: Result<
        u16,
        Error<B::Error>,
    >)
        ensures
            final(self).sensor().after_exchange(
                &old(self).sensor(),
                Operation::Write(
                    commands::MEASURE_RAW_SIGNAL@ + wire_word(humidity) + wire_word(temperature),
                ),
                Operation::WriteRead(commands::MEASURE_RAW_SIGNAL@, 3),
            ),
            r == final(self).sensor().exchanged_word(&old(self).sensor()),
    {
        match self.sensor.send_with_two_args(&commands::MEASURE_RAW_SIGNAL, humidity, temperature) {
            Ok(_) => self.sensor.read_word(&commands::MEASURE_RAW_SIGNAL),
            Err(e) => Err(e),
        }
    }

    /// Measures the raw signal, compensated for a relative humidity in
    /// thousandths of a percent and a temperature in thousandths of a
    /// degree Celsius.
    pub fn measure_raw_signal(&mut self, humidity_millipercent: i32, temperature_millicelsius: i32) -> (r:
        Result<u16, Error<B::Error>>)
        ensures
            final(self).sensor().after_exchange(
                &old(self).sensor(),
                Operation::Write(
                    commands::MEASURE_RAW_SIGNAL@ + wire_word(
                        spec_humidity_ticks(humidity_millipercent as int) as u16,
                    ) + wire_word(spec_temperature_ticks(temperature_millicelsius as int) as u16),
                ),
                Operation::WriteRead(commands::MEASURE_RAW_SIGNAL@, 3),
            ),
            r == final(self).sensor().exchanged_word(&old(self).sensor()),
    {
        let humidity = humidity_ticks(humidity_millipercent);
        let temperature = temperature_ticks(temperature_millicelsius);
        self.measure_raw_signal_with_ticks(humidity, temperature)
    }
}

} // verus!
