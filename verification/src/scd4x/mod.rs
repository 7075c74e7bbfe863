//! Driver for the SCD4x family of CO2, temperature and humidity sensors.
//!
//! The driver keeps no record of the mode the chip is in. A command that
//! the chip does not accept in its present mode is refused by the chip
//! itself, which shows as an error of the transport. Where the chip needs
//! time (about half a second to settle after periodic measurement is
//! stopped, about ten seconds for a self-test), waiting is left to the
//! caller: no operation sleeps.

use vstd::prelude::*;
use vstd::arithmetic::div_mod::lemma_div_is_ordered;
use crate::bus::{Bus, Operation, Transfer};
use crate::sensirion::{
    acknowledged,
    received,
    received_word,
    serial_number,
    spec_serial_number,
    Error,
    Sensor,
};
use crate::wire::wire_word;

pub mod commands;

verus! {

/// The address of every SCD4x on the bus.
pub const ADDRESS: u8 = 0x62;

/// The chips of the family.
#[derive(Debug, Clone, Copy, PartialEq, Eq, Hash, PartialOrd, Ord)]
pub enum Variant {
    SCD40,
    SCD41,
    SCD43,
}

impl Variant {
    /// The name of the chip.
    pub fn name(&self) -> (r: &'static str)
        ensures
            r@ == match *self {
                Variant::SCD40 => "SCD40"@,
                Variant::SCD41 => "SCD41"@,
                Variant::SCD43 => "SCD43"@,
            },
    {
        match self {
            Variant::SCD40 => "SCD40",
            Variant::SCD41 => "SCD41",
            Variant::SCD43 => "SCD43",
        }
    }
}

/// Whether a status word reports a measurement ready to be read: it does
/// unless its low eleven bits are all zero.
pub open spec fn spec_data_ready(status: u16) -> bool {
    status % 0x800 != 0
}

/// Decodes the status word of the data-ready command.
pub fn data_ready(status: u16) -> (r: bool)
    ensures
        r == spec_data_ready(status),
{
    status % 0x800 != 0
}

/// The chip that a status word names in its top four bits, if any.
pub open spec fn spec_variant(status: u16) -> Option<Variant> {
    let tag = status / 0x1000;
    if tag == 0 {
        Some(Variant::SCD40)
    } else if tag == 1 {
        Some(Variant::SCD41)
    } else if tag == 5 {
        Some(Variant::SCD43)
    } else {
        None
    }
}

/// What the status word of the variant command decodes to.
pub open spec fn spec_variant_result<E>(status: u16) -> Result<Variant, Error<E>> {
    match spec_variant(status) {
        Some(variant) => Ok(variant),
        None => Err(Error::InvalidResponse),
    }
}

/// Decodes the status word of the variant command: the top four bits
/// name the chip, and a pattern that names none is an invalid response.
pub fn variant<E>(status: u16) -> (r: Result<Variant, Error<E>>)
    ensures
        r == spec_variant_result::<E>(status),
{
    let tag: u16 = status / 0x1000;
    if tag == 0 {
        Ok(Variant::SCD40)
    } else if tag == 1 {
        Ok(Variant::SCD41)
    } else if tag == 5 {
        Ok(Variant::SCD43)
    } else {
        Err(Error::InvalidResponse)
    }
}

/// What the response word of a forced recalibration decodes to.
pub open spec fn spec_recalibration_correction<E>(word: u16) -> Result<i16, Error<E>> {
    if word == 0xffff {
        Err(Error::CommandFailed)
    } else {
        Ok((word - 0x8000) as i16)
    }
}

/// Decodes the response word of a forced recalibration: `0xffff` reports
/// that the recalibration failed; any other word is the correction that
/// was applied, in ppm, offset by `0x8000`.
pub fn recalibration_correction<E>(word: u16) -> (r: Result<i16, Error<E>>)
    ensures
        r == spec_recalibration_correction::<E>(word),
{
    if word == 0xffff {
        Err(Error::CommandFailed)
    } else if word >= 0x8000 {
        Ok((word - 0x8000) as i16)
    } else {
        Ok(-((0x8000 - word) as i32) as i16)
    }
}

/// The temperature that a raw reading stands for, in thousandths of a
/// degree Celsius, rounded down: `-45 + 175 * ticks / 65535` degrees.
pub open spec fn spec_temperature_millicelsius(ticks: u16) -> int {
    175_000 * ticks / 65_535 - 45_000
}

/// The relative humidity that a raw reading stands for, in thousandths
/// of a percent, rounded down: `100 * ticks / 65535` percent.
pub open spec fn spec_humidity_millipercent(ticks: u16) -> int {
    100_000 * ticks / 65_535
}

/// The temperature offset that a raw word stands for, in thousandths of
/// a degree Celsius, rounded down: `ticks * 175 / 65536` degrees.
pub open spec fn spec_temperature_offset_millicelsius(ticks: u16) -> int {
    ticks * 175_000 / 65_536
}

/// The raw word for a temperature offset given in thousandths of a
/// degree Celsius: `offset * 65536 / 175` for the offset in degrees,
/// rounded to the nearest integer, and held to the range of a word.
pub open spec fn spec_temperature_offset_ticks(millicelsius: int) -> int {
    let nearest = (131_072 * millicelsius + 175_000) / 350_000;
    if nearest < 0 {
        0
    } else if nearest > 0xffff {
        0xffff
    } else {
        nearest
    }
}

/// Converts a raw temperature reading to thousandths of a degree
/// Celsius.
pub fn temperature_millicelsius(ticks: u16) -> (r: i32)
    ensures
        r == spec_temperature_millicelsius(ticks),
        -45_000 <= r <= 130_000,
{
    let scaled: u64 = 175_000u64 * (ticks as u64) / 65_535u64;
    (scaled as i32) - 45_000i32
}

/// Converts a raw humidity reading to thousandths of a percent.
pub fn humidity_millipercent(ticks: u16) -> (r: u32)
    ensures
        r == spec_humidity_millipercent(ticks),
        r <= 100_000,
{
    (100_000u64 * (ticks as u64) / 65_535u64) as u32
}

/// Converts the raw word of a temperature offset to thousandths of a
/// degree Celsius.
pub fn temperature_offset_millicelsius(ticks: u16) -> (r: u32)
    ensures
        r == spec_temperature_offset_millicelsius(ticks),
        r < 175_000,
{
    ((ticks as u64) * 175_000u64 / 65_536u64) as u32
}

/// Converts a temperature offset in thousandths of a degree Celsius to
/// its raw word. An offset below zero gives 0, and one beyond what a
/// word can hold gives `0xffff`.
pub fn temperature_offset_ticks(millicelsius: i32) -> (r: u16)
    ensures
        r == spec_temperature_offset_ticks(millicelsius as int),
{
    if millicelsius <= 0 {
        0
    } else {
        let nearest: u64 = (131_072u64 * (millicelsius as u64) + 175_000u64) / 350_000u64;
        if nearest > 0xffff {
            0xffff
        } else {
            nearest as u16
        }
    }
}

/// A measurement is ready exactly when one of the low eleven bits of the
/// status word is set.
pub proof fn lemma_data_ready_reads_low_bits(status: u16)
    ensures
        spec_data_ready(status) == (status & 0x7ff != 0),
{
    assert(status & 0x7ff == status % 0x800) by (bit_vector);
}

/// The chip is named by the top four bits of the status word: `0000` is
/// the SCD40, `0001` the SCD41, `0101` the SCD43, and no other pattern
/// names a chip.
pub proof fn lemma_variant_reads_top_bits(status: u16)
    ensures
        status >> 12 == 0 <==> spec_variant(status) == Some(Variant::SCD40),
        status >> 12 == 1 <==> spec_variant(status) == Some(Variant::SCD41),
        status >> 12 == 5 <==> spec_variant(status) == Some(Variant::SCD43),
        spec_variant(status) is None <==> status >> 12 != 0 && status >> 12 != 1 && status >> 12
            != 5,
{
    assert(status >> 12 == status / 0x1000) by (bit_vector);
}

/// A hotter reading never stands for a lower temperature, a damper one
/// never for a lower humidity, and a larger word never for a smaller
/// temperature offset.
pub proof fn lemma_readings_monotonic(lower: u16, higher: u16)
    requires
        lower <= higher,
    ensures
        spec_temperature_millicelsius(lower) <= spec_temperature_millicelsius(higher),
        spec_humidity_millipercent(lower) <= spec_humidity_millipercent(higher),
        spec_temperature_offset_millicelsius(lower) <= spec_temperature_offset_millicelsius(
            higher,
        ),
{
    lemma_div_is_ordered(175_000 * lower, 175_000 * higher, 65_535);
    lemma_div_is_ordered(100_000 * lower, 100_000 * higher, 65_535);
    lemma_div_is_ordered(lower * 175_000, higher * 175_000, 65_536);
}

/// One reading of the three quantities that the chip measures, as the
/// chip reports them.
#[derive(Debug, Clone, Copy, PartialEq, Eq)]
pub struct Measurement {
    /// CO2 concentration in parts per million.
    pub co2: u16,
    /// Raw temperature reading.
    pub temperature: u16,
    /// Raw humidity reading.
    pub humidity: u16,
}

impl Measurement {
    /// The reading that three response words hold, in wire order.
    pub open spec fn from_words(words: Seq<u16>) -> Measurement {
        Measurement { co2: words[0], temperature: words[1], humidity: words[2] }
    }

    /// CO2 concentration in parts per million.
    pub fn co2_ppm(&self) -> (r: u16)
        ensures
            r == self.co2,
    {
        self.co2
    }

    /// Temperature in thousandths of a degree Celsius.
    pub fn temperature_millicelsius(&self) -> (r: i32)
        ensures
            r == spec_temperature_millicelsius(self.temperature),
    {
        temperature_millicelsius(self.temperature)
    }

    /// Relative humidity in thousandths of a percent.
    pub fn humidity_millipercent(&self) -> (r: u32)
        ensures
            r == spec_humidity_millipercent(self.humidity),
    {
        humidity_millipercent(self.humidity)
    }
}

/// An SCD4x on a bus.
pub struct SCD4x<B: Bus> {
    sensor: Sensor<B>,
}

impl<B: Bus> SCD4x<B> {
    /// The engine that carries the driver's transactions.
    pub closed spec fn sensor(&self) -> Sensor<B> {
        self.sensor
    }

    /// The address at which the driver reaches the chip: `ADDRESS` from
    /// `new` on, since no operation changes it.
    pub open spec fn address(&self) -> u8 {
        self.sensor().address()
    }

    /// The transfers that the driver has asked of the bus so far, oldest
    /// first.
    pub open spec fn transfers(&self) -> Seq<Transfer<B::Error>> {
        self.sensor().transfers()
    }

    /// `self` is `before` after exactly one more transfer, which asked the
    /// chip for `operation`.
    pub open spec fn after(&self, before: &Self, operation: Operation) -> bool {
        self.sensor().after(&before.sensor(), operation)
    }

    /// What came of the latest transfer.
    pub open spec fn outcome(&self) -> Result<Seq<u8>, B::Error> {
        self.sensor().outcome()
    }

    /// Takes hold of `i2c` to talk to the chip. Nothing is transferred yet.
    pub fn new(i2c: B) -> (s: Self)
        ensures
            s.sensor().bus() == i2c,
            s.address() == ADDRESS,
            s.transfers() == Seq::<Transfer<B::Error>>::empty(),
    {
        Self { sensor: Sensor::new(i2c, ADDRESS) }
    }

    /// Asks the chip whether a measurement is ready to be read.
    pub fn get_data_ready_status(&mut self) -> (r: Result<bool, Error<B::Error>>)
        ensures
            final(self).after(old(self), Operation::WriteRead(commands::GET_DATA_READY_STATUS@, 3)),
            r == match received_word(final(self).outcome()) {
                Ok(status) => Ok(spec_data_ready(status)),
                Err(e) => Err(e),
            },
    {
        match self.sensor.read_word(&commands::GET_DATA_READY_STATUS) {
            Ok(status) => Ok(data_ready(status)),
            Err(e) => Err(e),
        }
    }

    /// Reads the serial number of the chip, which identifies it and shows
    /// that it is present.
    pub fn get_serial_number(&mut self) -> (r: Result<u64, Error<B::Error>>)
        ensures
            final(self).after(old(self), Operation::WriteRead(commands::GET_SERIAL_NUMBER@, 9)),
            r == match received(final(self).outcome()) {
                Ok(words) => Ok(spec_serial_number(words[0], words[1], words[2])),
                Err(e) => Err(e),
            },
    {
        match self.sensor.read_three_words(&commands::GET_SERIAL_NUMBER) {
            Ok(words) => Ok(serial_number(&words)),
            Err(e) => Err(e),
        }
    }

    /// Starts the self-test. The chip takes about ten seconds over it;
    /// after that `read_self_test_result` collects the outcome.
    pub fn start_self_test(&mut self) -> (r: Result<(), Error<B::Error>>)
        ensures
            final(self).after(old(self), Operation::Write(commands::PERFORM_SELF_TEST@)),
            r == acknowledged(final(self).outcome()),
    {
        self.sensor.send(&commands::PERFORM_SELF_TEST)
    }

    /// Collects the outcome of a self-test started earlier: `true` if the
    /// chip found no malfunction, which it reports as a word of zero.
    pub fn read_self_test_result(&mut self) -> (r: Result<bool, Error<B::Error>>)
        ensures
            final(self).after(old(self), Operation::Read(3)),
            r == match received_word(final(self).outcome()) {
                Ok(status) => Ok(status == 0),
                Err(e) => Err(e),
            },
    {
        match self.sensor.read_response_word() {
            Ok(status) => Ok(status == 0),
            Err(e) => Err(e),
        }
    }

    /// Asks the chip which member of the family it is.
    pub fn get_sensor_variant(&mut self) -> (r: Result<Variant, Error<B::Error>>)
        ensures
            final(self).after(old(self), Operation::WriteRead(commands::GET_SENSOR_VARIANT@, 3)),
            r == match received_word(final(self).outcome()) {
                Ok(status) => spec_variant_result(status),
                Err(e) => Err(e),
            },
    {
        match self.sensor.read_word(&commands::GET_SENSOR_VARIANT) {
            Ok(status) => variant(status),
            Err(e) => Err(e),
        }
    }

    /// Starts periodic measurement, with a new reading every five seconds.
    pub fn start_periodic_measurement(&mut self) -> (r: Result<(), Error<B::Error>>)
        ensures
            final(self).after(old(self), Operation::Write(commands::START_PERIODIC_MEASUREMENTS@)),
            r == acknowledged(final(self).outcome()),
    {
        self.sensor.send(&commands::START_PERIODIC_MEASUREMENTS)
    }

    /// Stops periodic measurement. The chip needs about half a second to
    /// settle before it takes another command; waiting is left to the
    /// caller.
    pub fn stop_periodic_measurement(&mut self) -> (r: Result<(), Error<B::Error>>)
        ensures
            final(self).after(old(self), Operation::Write(commands::STOP_PERIODIC_MEASUREMENTS@)),
            r == acknowledged(final(self).outcome()),
    {
        self.sensor.send(&commands::STOP_PERIODIC_MEASUREMENTS)
    }

    /// Starts low-power periodic measurement, with a new reading about
    /// every thirty seconds.
    pub fn start_low_power_periodic_measurement(&mut self) -> (r: Result<(), Error<B::Error>>)
        ensures
            final(self).after(old(self), Operation::Write(commands::START_LOW_POWER_PERIODIC_MEASUREMENT@)),
            r == acknowledged(final(self).outcome()),
    {
        self.sensor.send(&commands::START_LOW_POWER_PERIODIC_MEASUREMENT)
    }

    /// Reads the latest measurement.
    pub fn read_measurement(&mut self) -> (r: Result<Measurement, Error<B::Error>>)
        ensures
            final(self).after(old(self), Operation::WriteRead(commands::READ_MEASUREMENT@, 9)),
            r == match received(final(self).outcome()) {
                Ok(words) => Ok(Measurement::from_words(words)),
                Err(e) => Err(e),
            },
    {
        match self.sensor.read_three_words(&commands::READ_MEASUREMENT) {
            Ok(words) => Ok(Measurement { co2: words[0], temperature: words[1], humidity: words[2] }),
            Err(e) => Err(e),
        }
    }

    /// Stores the present settings (temperature offset, altitude, automatic
    /// self-calibration) in the non-volatile memory of the chip.
    pub fn persist_settings(&mut self) -> (r: Result<(), Error<B::Error>>)
        ensures
            final(self).after(old(self), Operation::Write(commands::PERSIST_SETTINGS@)),
            r == acknowledged(final(self).outcome()),
    {
        self.sensor.send(&commands::PERSIST_SETTINGS)
    }

    /// Resets all settings stored in the non-volatile memory of the chip
    /// and erases its calibration history.
    pub fn perform_factory_reset(&mut self) -> (r: Result<(), Error<B::Error>>)
        ensures
            final(self).after(old(self), Operation::Write(commands::PERFORM_FACTORY_RESET@)),
            r == acknowledged(final(self).outcome()),
    {
        self.sensor.send(&commands::PERFORM_FACTORY_RESET)
    }

    /// Makes the chip load its settings from non-volatile memory again.
    pub fn reinit(&mut self) -> (r: Result<(), Error<B::Error>>)
        ensures
            final(self).after(old(self), Operation::Write(commands::REINIT@)),
            r == acknowledged(final(self).outcome()),
    {
        self.sensor.send(&commands::REINIT)
    }

    /// Asks for one measurement of CO2, temperature and humidity.
    pub fn measure_single_shot(&mut self) -> (r: Result<(), Error<B::Error>>)
        ensures
            final(self).after(old(self), Operation::Write(commands::MEASURE_SINGLE_SHOT@)),
            r == acknowledged(final(self).outcome()),
    {
        self.sensor.send(&commands::MEASURE_SINGLE_SHOT)
    }

    /// Asks for one measurement of temperature and humidity only.
    pub fn measure_single_shot_rht_only(&mut self) -> (r: Result<(), Error<B::Error>>)
        ensures
            final(self).after(old(self), Operation::Write(commands::MEASURE_SINGLE_SHOT_RHT_ONLY@)),
            r == acknowledged(final(self).outcome()),
    {
        self.sensor.send(&commands::MEASURE_SINGLE_SHOT_RHT_ONLY)
    }

    /// Puts the chip to sleep.
    pub fn power_down(&mut self) -> (r: Result<(), Error<B::Error>>)
        ensures
            final(self).after(old(self), Operation::Write(commands::POWER_DOWN@)),
            r == acknowledged(final(self).outcome()),
    {
        self.sensor.send(&commands::POWER_DOWN)
    }

    /// Wakes the chip from sleep.
    pub fn wake_up(&mut self) -> (r: Result<(), Error<B::Error>>)
        ensures
            final(self).after(old(self), Operation::Write(commands::WAKE_UP@)),
            r == acknowledged(final(self).outcome()),
    {
        self.sensor.send(&commands::WAKE_UP)
    }

    /// Sets the temperature offset, given as the raw word that the chip takes.
    pub fn set_temperature_offset_ticks(&mut self, ticks: u16) -> (r: Result<(), Error<B::Error>>)
        ensures
            final(self).after(
                old(self),
                Operation::Write(commands::SET_TEMPERATURE_OFFSET@ + wire_word(ticks)),
            ),
            r == acknowledged(final(self).outcome()),
    {
        self.sensor.send_with_arg(&commands::SET_TEMPERATURE_OFFSET, ticks)
    }

    /// Sets the temperature offset, given in thousandths of a degree
    /// Celsius.
    pub fn set_temperature_offset(&mut self, millicelsius: i32) -> (r: Result<(), Error<B::Error>>)
        ensures
            final(self).after(
                old(self),
                Operation::Write(
                    commands::SET_TEMPERATURE_OFFSET@ + wire_word(
                        spec_temperature_offset_ticks(millicelsius as int) as u16,
                    ),
                ),
            ),
            r == acknowledged(final(self).outcome()),
    {
        self.set_temperature_offset_ticks(temperature_offset_ticks(millicelsius))
    }

    /// Reads the temperature offset as the raw word that the chip holds.
    pub fn get_temperature_offset_ticks(&mut self) -> (r: Result<u16, Error<B::Error>>)
        ensures
            final(self).after(old(self), Operation::WriteRead(commands::GET_TEMPERATURE_OFFSET@, 3)),
            r == received_word(final(self).outcome()),
    {
        self.sensor.read_word(&commands::GET_TEMPERATURE_OFFSET)
    }

    /// Reads the temperature offset, in thousandths of a degree Celsius.
    pub fn get_temperature_offset(&mut self) -> (r: Result<u32, Error<B::Error>>)
        ensures
            final(self).after(
                old(self),
                Operation::WriteRead(commands::GET_TEMPERATURE_OFFSET@, 3),
            ),
            r == match received_word(final(self).outcome()) {
                Ok(ticks) => Ok(spec_temperature_offset_millicelsius(ticks) as u32),
                Err(e) => Err(e),
            },
    {
        match self.get_temperature_offset_ticks() {
            Ok(ticks) => Ok(temperature_offset_millicelsius(ticks)),
            Err(e) => Err(e),
        }
    }

    /// Sets the altitude of the place where the chip is, in meters above sea
    /// level.
    pub fn set_sensor_altitude(&mut self, meters: u16) -> (r: Result<(), Error<B::Error>>)
        ensures
            final(self).after(
                old(self),
                Operation::Write(commands::SET_SENSOR_ALTITUDE@ + wire_word(meters)),
            ),
            r == acknowledged(final(self).outcome()),
    {
        self.sensor.send_with_arg(&commands::SET_SENSOR_ALTITUDE, meters)
    }

    /// Reads the altitude that the chip reckons with, in meters above sea
    /// level.
    pub fn get_sensor_altitude(&mut self) -> (r: Result<u16, Error<B::Error>>)
        ensures
            final(self).after(old(self), Operation::WriteRead(commands::GET_SENSOR_ALTITUDE@, 3)),
            r == received_word(final(self).outcome()),
    {
        self.sensor.read_word(&commands::GET_SENSOR_ALTITUDE)
    }

    /// Tells the chip the ambient pressure, in hectopascals.
    pub fn set_ambient_pressure(&mut self, hectopascals: u16) -> (r: Result<(), Error<B::Error>>)
        ensures
            final(self).after(
                old(self),
                Operation::Write(commands::SET_AMBIENT_PRESSURE@ + wire_word(hectopascals)),
            ),
            r == acknowledged(final(self).outcome()),
    {
        self.sensor.send_with_arg(&commands::SET_AMBIENT_PRESSURE, hectopascals)
    }

    /// Recalibrates the chip against a known CO2 concentration, given in
    /// ppm, and hands out the correction that the chip applied, in ppm.
    ///
    /// The command is written with the target as its argument. If that
    /// succeeds the one word of the result is asked for; a word of
    /// `0xffff` reports that the recalibration failed.
    pub fn perform_forced_recalibration(&mut self, target_ppm: u16) -> (r: Result<
        i16,
        Error<B::Error>,
    >)
        ensures
            final(self).sensor().after_exchange(
                &old(self).sensor(),
                Operation::Write(
                    commands::PERFORM_FORCED_RECALIBRATION@ + wire_word(target_ppm),
                ),
                Operation::WriteRead(commands::PERFORM_FORCED_RECALIBRATION@, 3),
            ),
            r == match final(self).sensor().exchanged_word(&old(self).sensor()) {
                Ok(word) => spec_recalibration_correction(word),
                Err(e) => Err(e),
            },
    {
        match self.sensor.send_with_arg(&commands::PERFORM_FORCED_RECALIBRATION, target_ppm) {
            Ok(_) => match self.sensor.read_word(&commands::PERFORM_FORCED_RECALIBRATION) {
                Ok(word) => recalibration_correction(word),
                Err(e) => Err(e),
            },
            Err(e) => Err(e),
        }
    }

    /// Switches automatic self-calibration on or off: the argument sent
    /// is 1 for on and 0 for off.
    pub fn set_automatic_self_calibration_enabled(&mut self, enabled: bool) -> (r: Result<
        (),
        Error<B::Error>,
    >)
        ensures
            final(self).after(
                old(self),
                Operation::Write(
                    commands::SET_AUTOMATIC_SELF_CALIBRATION_ENABLED@ + wire_word(
                        if enabled {
                            1u16
                        } else {
                            0u16
                        },
                    ),
                ),
            ),
            r == acknowledged(final(self).outcome()),
    {
        let flag: u16 = if enabled {
            1
        } else {
            0
        };
        self.sensor.send_with_arg(&commands::SET_AUTOMATIC_SELF_CALIBRATION_ENABLED, flag)
    }

    /// Asks whether automatic self-calibration is on: it is unless the
    /// chip answers with a word of zero.
    pub fn get_automatic_self_calibration_enabled(&mut self) -> (r: Result<bool, Error<B::Error>>)
        ensures
            final(self).after(
                old(self),
                Operation::WriteRead(commands::GET_AUTOMATIC_SELF_CALIBRATION_ENABLED@, 3),
            ),
            r == match received_word(final(self).outcome()) {
                Ok(flag) => Ok(flag != 0),
                Err(e) => Err(e),
            },
    {
        match self.sensor.read_word(&commands::GET_AUTOMATIC_SELF_CALIBRATION_ENABLED) {
            Ok(flag) => Ok(flag != 0),
            Err(e) => Err(e),
        }
    }

    /// Sets the CO2 concentration that automatic self-calibration takes for
    /// fresh air, in ppm.
    pub fn set_automatic_self_calibration_target(&mut self, ppm: u16) -> (r: Result<(), Error<B::Error>>)
        ensures
            final(self).after(
                old(self),
                Operation::Write(commands::SET_AUTOMATIC_SELF_CALIBRATION_TARGET@ + wire_word(ppm)),
            ),
            r == acknowledged(final(self).outcome()),
    {
        self.sensor.send_with_arg(&commands::SET_AUTOMATIC_SELF_CALIBRATION_TARGET, ppm)
    }

    /// Reads the CO2 concentration that automatic self-calibration takes
    /// for fresh air, in ppm.
    pub fn get_automatic_self_calibration_target(&mut self) -> (r: Result<u16, Error<B::Error>>)
        ensures
            final(self).after(old(self), Operation::WriteRead(commands::GET_AUTOMATIC_SELF_CALIBRATION_TARGET@, 3)),
            r == received_word(final(self).outcome()),
    {
        self.sensor.read_word(&commands::GET_AUTOMATIC_SELF_CALIBRATION_TARGET)
    }

    /// Sets the initial period of automatic self-calibration, in hours.
    pub fn set_automatic_self_calibration_initial_period(&mut self, hours: u16) -> (r: Result<(), Error<B::Error>>)
        ensures
            final(self).after(
                old(self),
                Operation::Write(commands::SET_AUTOMATIC_SELF_CALIBRATION_INITIAL_PERIOD@ + wire_word(hours)),
            ),
            r == acknowledged(final(self).outcome()),
    {
        self.sensor.send_with_arg(&commands::SET_AUTOMATIC_SELF_CALIBRATION_INITIAL_PERIOD, hours)
    }

    /// Reads the initial period of automatic self-calibration, in hours.
    pub fn get_automatic_self_calibration_initial_period(&mut self) -> (r: Result<u16, Error<B::Error>>)
        ensures
            final(self).after(old(self), Operation::WriteRead(commands::GET_AUTOMATIC_SELF_CALIBRATION_INITIAL_PERIOD@, 3)),
            r == received_word(final(self).outcome()),
    {
        self.sensor.read_word(&commands::GET_AUTOMATIC_SELF_CALIBRATION_INITIAL_PERIOD)
    }

    /// Sets the standard period of automatic self-calibration, in hours.
    pub fn set_automatic_self_calibration_standard_period(&mut self, hours: u16) -> (r: Result<(), Error<B::Error>>)
        ensures
            final(self).after(
                old(self),
                Operation::Write(commands::SET_AUTOMATIC_SELF_CALIBRATION_STANDARD_PERIOD@ + wire_word(hours)),
            ),
            r == acknowledged(final(self).outcome()),
    {
        self.sensor.send_with_arg(&commands::SET_AUTOMATIC_SELF_CALIBRATION_STANDARD_PERIOD, hours)
    }

    /// Reads the standard period of automatic self-calibration, in hours.
    pub fn get_automatic_self_calibration_standard_period(&mut self) -> (r: Result<u16, Error<B::Error>>)
        ensures
            final(self).after(old(self), Operation::WriteRead(commands::GET_AUTOMATIC_SELF_CALIBRATION_STANDARD_PERIOD@, 3)),
            r == received_word(final(self).outcome()),
    {
        self.sensor.read_word(&commands::GET_AUTOMATIC_SELF_CALIBRATION_STANDARD_PERIOD)
    }
}

} // verus!
