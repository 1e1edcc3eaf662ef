//! The INA233 power monitor: its I2C address pins, its driver configuration, and
//! the decisions of its start-up protocol (identity checks, reset, calibration
//! and ADC configuration writes).

use vstd::prelude::*;
use crate::registers::{
    AdcConfig, Calibration, ConvertRaw, MfrId, MfrModel, Register,
};
use core::ops::RangeInclusive;

verus! {

/// How an address pin is strapped.
#[derive(Copy, Clone, Debug, PartialEq, Eq, Structural)]
pub enum AddrPin {
    /// Address pin grounded.
    Gnd,
    /// Address pin connected to Vdd.
    Vdd,
    /// Address pin connected to SDA.
    Sda,
    /// Address pin connected to SCL.
    Scl,
}

impl AddrPin {
    /// The pin's two-bit code.
    pub open spec fn spec_code(self) -> u8 {
        match self {
            AddrPin::Gnd => 0b00,
            AddrPin::Vdd => 0b01,
            AddrPin::Sda => 0b10,
            AddrPin::Scl => 0b11,
        }
    }

    /// The strapping of the two low bits of `addr`.
    pub open spec fn spec_from(addr: u8) -> AddrPin {
        let code = addr % 4;
        if code == 0 {
            AddrPin::Gnd
        } else if code == 1 {
            AddrPin::Vdd
        } else if code == 2 {
            AddrPin::Sda
        } else {
            AddrPin::Scl
        }
    }

    /// The pin's two-bit code.
    pub fn code(self) -> (r: u8)
        ensures
            r == self.spec_code(),
    {
        match self {
            AddrPin::Gnd => 0b00,
            AddrPin::Vdd => 0b01,
            AddrPin::Sda => 0b10,
            AddrPin::Scl => 0b11,
        }
    }

    /// The range of I2C addresses that the address pins can select.
    pub fn address_range() -> (r: RangeInclusive<u8>)
        ensures
            r@.start == 0x40,
            r@.end == 0x4f,
            r@.exhausted == false,
    {
        RangeInclusive::new(0x40, 0x4f)
    }
}

impl Default for AddrPin {
    fn default() -> (r: AddrPin)
        ensures
            r == AddrPin::Gnd,
    {
        AddrPin::Gnd
    }
}

impl From<u8> for AddrPin {
    fn from(addr: u8) -> (r: AddrPin) {
        let code: u8 = addr & 0b11;
        assert(addr & 0b11u8 == addr % 4) by (bit_vector);
        match code {
            0 => AddrPin::Gnd,
            1 => AddrPin::Vdd,
            2 => AddrPin::Sda,
            _ => AddrPin::Scl,
        }
    }
}

impl vstd::std_specs::convert::FromSpecImpl<u8> for AddrPin {
    open spec fn obeys_from_spec() -> bool {
        true
    }

    open spec fn from_spec(addr: u8) -> AddrPin {
        AddrPin::spec_from(addr)
    }
}

/// The I2C address selected by the strapping of pins A0 and A1.
pub open spec fn spec_device_address(a0: AddrPin, a1: AddrPin) -> u8 {
    (0x40 + 4 * a1.spec_code() + a0.spec_code()) as u8
}

/// The I2C address selected by the strapping of pins A0 and A1: A1 in bits 2 and 3,
/// A0 in bits 0 and 1, above the base address 0x40.
pub fn device_address(a0: AddrPin, a1: AddrPin) -> (r: u8)
    ensures
        r == spec_device_address(a0, a1),
        0x40 <= r <= 0x4f,
{
    let base_address: u8 = 0x40;
    let c0: u8 = a0.code();
    let c1: u8 = a1.code();
    assert(c0 < 4 && c1 < 4 ==> (0x40u8 | c1 << 2u8 | c0) == 0x40 + 4 * c1 + c0) by (bit_vector);
    base_address | c1 << 2 | c0
}

/// Strapping the pins as an address's low bits select selects that very address,
/// for every address in the range the pins can select.
pub proof fn lemma_address_pins_round_trip(addr: u8)
    requires
        0x40 <= addr <= 0x4f,
    ensures
        spec_device_address(AddrPin::spec_from(addr), AddrPin::spec_from(addr / 4)) == addr,
{
}

/// INA233 errors, over the error type `I2CError` of the bus.
#[derive(Debug, Clone, Copy, PartialEq, Eq)]
pub enum Error<I2CError> {
    /// I2C bus error
    I2C(I2CError),
    /// Device identification error
    DeviceId,
    /// Calibration read-back did not match the written value
    CalibrationMismatch,
    /// ADC configuration read-back did not match the written value
    ConfigurationMismatch,
}

impl<I2CError> From<I2CError> for Error<I2CError> {
    fn from(err: I2CError) -> (r: Error<I2CError>) {
        Error::I2C(err)
    }
}

impl<I2CError> vstd::std_specs::convert::FromSpecImpl<I2CError> for Error<I2CError> {
    open spec fn obeys_from_spec() -> bool {
        true
    }

    open spec fn from_spec(err: I2CError) -> Error<I2CError> {
        Error::I2C(err)
    }
}

/// Builder for an INA233 driver configuration; `L` is the type of the current LSB.
pub struct ConfigurationBuilder<L> {
    /// Strapping of address pin A0.
    pub a0: AddrPin,
    /// Strapping of address pin A1.
    pub a1: AddrPin,
    /// The ADC configuration to write.
    pub adc_conf: AdcConfig,
    /// The requested current LSB, if any.
    pub lsb: Option<L>,
}

impl<L> Default for ConfigurationBuilder<L> {
    fn default() -> (r: ConfigurationBuilder<L>)
        ensures
            r.a0 == AddrPin::Gnd,
            r.a1 == AddrPin::Gnd,
            r.adc_conf == AdcConfig::spec_default(),
            r.lsb is None,
    {
        ConfigurationBuilder {
            a0: AddrPin::default(),
            a1: AddrPin::default(),
            adc_conf: AdcConfig::default(),
            lsb: None,
        }
    }
}

impl<L> ConfigurationBuilder<L> {
    /// Set the address pin A0 configuration.
    pub fn addr_a0(self, a0: AddrPin) -> (r: Self)
        ensures
            r.a0 == a0,
            r.a1 == self.a1,
            r.adc_conf == self.adc_conf,
            r.lsb == self.lsb,
    {
        let mut this = self;
        this.a0 = a0;
        this
    }

    /// Set the address pin A1 configuration.
    pub fn addr_a1(self, a1: AddrPin) -> (r: Self)
        ensures
            r.a0 == self.a0,
            r.a1 == a1,
            r.adc_conf == self.adc_conf,
            r.lsb == self.lsb,
    {
        let mut this = self;
        this.a1 = a1;
        this
    }

    /// Set the address pin configuration for both A0 and A1 from the low four bits
    /// of the I2C address `addr`: A0 from bits 0 and 1, A1 from bits 2 and 3.
    pub fn address(self, addr: u8) -> (r: Self)
        ensures
            r.a0 == AddrPin::spec_from(addr),
            r.a1 == AddrPin::spec_from(addr / 4),
            r.adc_conf == self.adc_conf,
            r.lsb == self.lsb,
            0x40 <= addr <= 0x4f ==> spec_device_address(r.a0, r.a1) == addr,
    {
        assert(addr >> 2u8 == addr / 4) by (bit_vector);
        let a0 = AddrPin::from(addr);
        let a1 = AddrPin::from(addr >> 2);
        let mut this = self;
        this.a0 = a0;
        this.a1 = a1;
        this
    }

    /// Set the ADC configuration.
    pub fn adc_config(self, config: AdcConfig) -> (r: Self)
        ensures
            r.a0 == self.a0,
            r.a1 == self.a1,
            r.adc_conf == config,
            r.lsb == self.lsb,
    {
        let mut this = self;
        this.adc_conf = config;
        this
    }

    /// Set the current LSB.
    pub fn current_lsb(self, lsb: L) -> (r: Self)
        ensures
            r.a0 == self.a0,
            r.a1 == self.a1,
            r.adc_conf == self.adc_conf,
            r.lsb == Some(lsb),
    {
        let mut this = self;
        this.lsb = Some(lsb);
        this
    }

    /// The I2C address that the configured pins select.
    pub fn device_address(&self) -> (r: u8)
        ensures
            r == spec_device_address(self.a0, self.a1),
    {
        device_address(self.a0, self.a1)
    }
}

/// An INA233 driver configuration: the address pins, the ADC configuration, the
/// calibration word and the current LSB of type `L` that it yields.
pub struct Configuration<L> {
    /// Strapping of address pin A0.
    pub a0: AddrPin,
    /// Strapping of address pin A1.
    pub a1: AddrPin,
    /// The ADC configuration to write.
    pub adc_conf: AdcConfig,
    /// The calibration word to write.
    pub calibration: u16,
    /// The current LSB that the calibration yields.
    pub lsb: L,
}

impl<L> Configuration<L> {
    /// The configuration of a builder's pins and ADC configuration, with the given
    /// calibration word and the current LSB it yields.
    pub fn from_builder(builder: ConfigurationBuilder<L>, calibration: u16, lsb: L) -> (r: Self)
        ensures
            r.a0 == builder.a0,
            r.a1 == builder.a1,
            r.adc_conf == builder.adc_conf,
            r.calibration == calibration,
            r.lsb == lsb,
    {
        Configuration {
            a0: builder.a0,
            a1: builder.a1,
            adc_conf: builder.adc_conf,
            calibration,
            lsb,
        }
    }

    /// The I2C address that the configured pins select.
    pub fn device_address(&self) -> (r: u8)
        ensures
            r == spec_device_address(self.a0, self.a1),
    {
        device_address(self.a0, self.a1)
    }
}

/// A device on an I2C bus: the bus and the device's address.
pub struct I2cInterface<I2C> {
    /// The bus.
    pub i2c: I2C,
    /// The device's 7-bit address.
    pub address: u8,
}

/// INA233 driver over the bus `I2C`, with delay provider `D` and current LSB of type `L`.
pub struct Ina233<I2C, D, L> {
    i2c: I2cInterface<I2C>,
    delay: D,
    lsb: L,
    calibration: Calibration,
}

impl<I2C, D, L> Ina233<I2C, D, L> {
    /// The device's bus and address.
    pub closed spec fn spec_interface(self) -> I2cInterface<I2C> {
        self.i2c
    }

    /// The delay provider.
    pub closed spec fn spec_delay(self) -> D {
        self.delay
    }

    /// The current LSB.
    pub closed spec fn spec_lsb(self) -> L {
        self.lsb
    }

    /// The calibration written at start-up.
    pub closed spec fn spec_calibration(self) -> Calibration {
        self.calibration
    }

    /// A driver for a device that has passed its start-up protocol with the given
    /// calibration, yielding the current LSB `lsb`.
    pub fn from_parts(i2c: I2cInterface<I2C>, delay: D, lsb: L, calibration: Calibration) -> (r: Self)
        ensures
            r.spec_interface() == i2c,
            r.spec_delay() == delay,
            r.spec_lsb() == lsb,
            r.spec_calibration() == calibration,
    {
        Ina233 { i2c, delay, lsb, calibration }
    }

    /// Get the I2C address of the INA233 device.
    pub fn address(&self) -> (r: u8)
        ensures
            r == self.spec_interface().address,
    {
        self.i2c.address
    }

    /// The current LSB.
    pub fn lsb(&self) -> (r: &L)
        ensures
            *r == self.spec_lsb(),
    {
        &self.lsb
    }

    /// The calibration written at start-up.
    pub fn calibration(&self) -> (r: Calibration)
        ensures
            r == self.spec_calibration(),
    {
        self.calibration
    }

    /// The device's bus and address, to carry a transfer.
    pub fn interface_mut(&mut self) -> (r: &mut I2cInterface<I2C>)
        ensures
            *r == old(self).spec_interface(),
            final(self).spec_interface() == *final(r),
            final(self).spec_delay() == old(self).spec_delay(),
            final(self).spec_lsb() == old(self).spec_lsb(),
            final(self).spec_calibration() == old(self).spec_calibration(),
    {
        &mut self.i2c
    }

    /// The delay provider, to wait.
    pub fn delay_mut(&mut self) -> (r: &mut D)
        ensures
            *r == old(self).spec_delay(),
            final(self).spec_delay() == *final(r),
            final(self).spec_interface() == old(self).spec_interface(),
            final(self).spec_lsb() == old(self).spec_lsb(),
            final(self).spec_calibration() == old(self).spec_calibration(),
    {
        &mut self.delay
    }
}


/// Command code that resets the device.
pub const RESET_COMMAND: u8 = 0x12;
/// Milliseconds to wait after a reset.
pub const RESET_DELAY_MS: u32 = 100;

/// The expected manufacturer identification: "TI".
pub open spec fn expected_id() -> Seq<u8> {
    seq![0x54u8, 0x49]
}

/// The expected model: "INA233".
pub open spec fn expected_model() -> Seq<u8> {
    seq![0x49u8, 0x4e, 0x41, 0x32, 0x33, 0x33]
}

/// Where the start-up protocol of a device stands.
#[derive(Copy, Clone, Debug, PartialEq, Eq, Structural)]
pub enum InitStep {
    /// The manufacturer identification is to be read.
    ReadId,
    /// The model is to be read.
    ReadModel,
    /// The reset command is to be sent.
    Reset,
    /// The device settles after its reset.
    Settle,
    /// The calibration is to be written.
    WriteCalibration,
    /// The calibration is to be read back.
    VerifyCalibration,
    /// The ADC configuration is to be written.
    WriteAdcConfig,
    /// The ADC configuration is to be read back.
    VerifyAdcConfig,
    /// The device is identified and configured.
    Ready,
    /// The protocol stopped on an error.
    Failed,
}

/// What the start-up protocol asks of the bus next.
#[derive(Debug)]
pub enum InitAction<E> {
    /// Write the command code, then read `len` bytes.
    ReadRegister {
        /// The register's command code.
        command: u8,
        /// The number of bytes to read.
        len: usize,
    },
    /// Write the single command byte.
    SendCommand(u8),
    /// Wait this many milliseconds.
    Delay(u32),
    /// Write these bytes: a register's command code, then its value little-endian.
    WriteRegister([u8; 3]),
    /// The device is ready.
    Done,
    /// The protocol failed with this error.
    Fail(Error<E>),
    /// Nothing more to do.
    Stopped,
}

/// What came of the last action.
#[derive(Debug)]
pub enum InitEvent<E> {
    /// The two bytes of a register read.
    Bytes2([u8; 2]),
    /// The four bytes of a register read.
    Bytes4([u8; 4]),
    /// The eight bytes of a register read.
    Bytes8([u8; 8]),
    /// The write or the wait completed.
    Completed,
    /// The bus failed.
    BusError(E),
}

/// The start-up protocol of one device: the step it stands at, and the calibration
/// and ADC configuration it is to write.
#[derive(Copy, Clone, Debug, PartialEq, Eq, Structural)]
pub struct Ina233Init {
    /// Where the protocol stands.
    pub step: InitStep,
    /// The calibration to write.
    pub calibration: Calibration,
    /// The ADC configuration to write.
    pub adc_conf: AdcConfig,
}

/// The bytes that write the 16-bit `word` to the register with the command code
/// `command`: the code, then the word little-endian.
pub open spec fn write_frame(command: u8, word: u16) -> Seq<u8> {
    seq![command, (word % 256) as u8, (word / 256) as u8]
}

/// Whether the two bytes `raw` read back from a register are the 16-bit `word`,
/// little-endian.
pub open spec fn reads_back(raw: [u8; 2], word: u16) -> bool {
    raw[0] == word % 256 && raw[1] == word / 256
}

/// Whether `action` is what `init` asks for while it stands where it stands.
pub open spec fn is_pending<E>(init: Ina233Init, action: InitAction<E>) -> bool {
    match init.step {
        InitStep::ReadId => action == InitAction::<E>::ReadRegister { command: 0x99, len: 4 },
        InitStep::ReadModel => action == InitAction::<E>::ReadRegister { command: 0x9a, len: 8 },
        InitStep::Reset => action == InitAction::<E>::SendCommand(RESET_COMMAND),
        InitStep::Settle => action == InitAction::<E>::Delay(RESET_DELAY_MS),
        InitStep::WriteCalibration => action matches InitAction::WriteRegister(b) && b@ == write_frame(
            0xd4,
            init.calibration.spec_bits(),
        ),
        InitStep::VerifyCalibration => action == InitAction::<E>::ReadRegister { command: 0xd4, len: 2 },
        InitStep::WriteAdcConfig => action matches InitAction::WriteRegister(b) && b@ == write_frame(
            0xd0,
            init.adc_conf.spec_bits(),
        ),
        InitStep::VerifyAdcConfig => action == InitAction::<E>::ReadRegister { command: 0xd0, len: 2 },
        InitStep::Ready => action is Done,
        InitStep::Failed => action is Stopped,
    }
}

/// The order of the steps: identification, model, reset, settling, calibration
/// and its read-back, ADC configuration and its read-back, ready.
pub open spec fn step_rank(step: InitStep) -> int {
    match step {
        InitStep::ReadId => 0,
        InitStep::ReadModel => 1,
        InitStep::Reset => 2,
        InitStep::Settle => 3,
        InitStep::WriteCalibration => 4,
        InitStep::VerifyCalibration => 5,
        InitStep::WriteAdcConfig => 6,
        InitStep::VerifyAdcConfig => 7,
        InitStep::Ready => 8,
        InitStep::Failed => 9,
    }
}

/// The step that follows where `init` stands on `event`.
pub open spec fn next_step<E>(init: Ina233Init, event: InitEvent<E>) -> InitStep {
    let step = init.step;
    if step is Ready || step is Failed {
        step
    } else {
        match event {
            InitEvent::BusError(_) => InitStep::Failed,
            InitEvent::Bytes2(raw) => match step {
                InitStep::VerifyCalibration => if reads_back(raw, init.calibration.spec_bits()) {
                    InitStep::WriteAdcConfig
                } else {
                    InitStep::Failed
                },
                InitStep::VerifyAdcConfig => if reads_back(raw, init.adc_conf.spec_bits()) {
                    InitStep::Ready
                } else {
                    InitStep::Failed
                },
                _ => step,
            },
            InitEvent::Bytes4(raw) => if step is ReadId {
                if raw@.subrange(1, 3) == expected_id() {
                    InitStep::ReadModel
                } else {
                    InitStep::Failed
                }
            } else {
                step
            },
            InitEvent::Bytes8(raw) => if step is ReadModel {
                if raw@.subrange(1, 7) == expected_model() {
                    InitStep::Reset
                } else {
                    InitStep::Failed
                }
            } else {
                step
            },
            InitEvent::Completed => match step {
                InitStep::Reset => InitStep::Settle,
                InitStep::Settle => InitStep::WriteCalibration,
                InitStep::WriteCalibration => InitStep::VerifyCalibration,
                InitStep::WriteAdcConfig => InitStep::VerifyAdcConfig,
                _ => step,
            },
        }
    }
}

/// The start-up protocol never skips a step: each event leaves it where it is,
/// moves it to the very next step, or stops it; so a device is ready only after it
/// was identified, reset, given time to settle, written its calibration and read
/// it back unchanged, and written its ADC configuration and read it back
/// unchanged, in that order.
pub proof fn lemma_steps_in_order<E>(init: Ina233Init, event: InitEvent<E>)
    ensures
        next_step(init, event) == init.step || step_rank(next_step(init, event)) == step_rank(init.step)
            + 1 || next_step(init, event) == InitStep::Failed,
        next_step(init, event) == InitStep::Ready ==> init.step == InitStep::Ready || (init.step
            == InitStep::VerifyAdcConfig && (event matches InitEvent::Bytes2(raw) && reads_back(
            raw,
            init.adc_conf.spec_bits(),
        ))),
        next_step(init, event) == InitStep::WriteAdcConfig && init.step != InitStep::WriteAdcConfig
            ==> (event matches InitEvent::Bytes2(raw) && reads_back(raw, init.calibration.spec_bits())),
        init.step == InitStep::Failed ==> next_step(init, event) == InitStep::Failed,
{
}

impl Ina233Init {
    /// The protocol of a device that is to be identified, then written the
    /// calibration word `calibration` and the ADC configuration `adc_conf`.
    pub fn start<E>(calibration: u16, adc_conf: AdcConfig) -> (r: (Ina233Init, InitAction<E>))
        ensures
            r.0.step == InitStep::ReadId,
            r.0.calibration == Calibration::spec_from_bits(calibration),
            r.0.adc_conf == adc_conf,
            is_pending(r.0, r.1),
    {
        let init = Ina233Init {
            step: InitStep::ReadId,
            calibration: Calibration::from(calibration),
            adc_conf,
        };
        let action = init.pending();
        (init, action)
    }

    /// The protocol of a device that is reset and written `calibration` and
    /// `adc_conf` again, without being identified.
    pub fn restart<E>(calibration: Calibration, adc_conf: AdcConfig) -> (r: (Ina233Init, InitAction<E>))
        ensures
            r.0.step == InitStep::Reset,
            r.0.calibration == calibration,
            r.0.adc_conf == adc_conf,
            is_pending(r.0, r.1),
    {
        let init = Ina233Init { step: InitStep::Reset, calibration, adc_conf };
        let action = init.pending();
        (init, action)
    }

    /// What the protocol asks for where it stands.
    pub fn pending<E>(&self) -> (r: InitAction<E>)
        ensures
            is_pending(*self, r),
    {
        match self.step {
            InitStep::ReadId => InitAction::ReadRegister { command: MfrId::address(), len: 4 },
            InitStep::ReadModel => InitAction::ReadRegister { command: MfrModel::address(), len: 8 },
            InitStep::Reset => InitAction::SendCommand(RESET_COMMAND),
            InitStep::Settle => InitAction::Delay(RESET_DELAY_MS),
            InitStep::WriteCalibration => {
                let raw = self.calibration.to_raw();
                let bytes = [Calibration::address(), raw[0], raw[1]];
                assert(bytes@ =~= write_frame(0xd4, self.calibration.spec_bits()));
                InitAction::WriteRegister(bytes)
            },
            InitStep::VerifyCalibration => InitAction::ReadRegister {
                command: Calibration::address(),
                len: 2,
            },
            InitStep::WriteAdcConfig => {
                let raw = self.adc_conf.to_raw();
                let bytes = [AdcConfig::address(), raw[0], raw[1]];
                assert(bytes@ =~= write_frame(0xd0, self.adc_conf.spec_bits()));
                InitAction::WriteRegister(bytes)
            },
            InitStep::VerifyAdcConfig => InitAction::ReadRegister { command: AdcConfig::address(), len: 2 },
            InitStep::Ready => InitAction::Done,
            InitStep::Failed => InitAction::Stopped,
        }
    }

    /// The protocol after `event`, and what it asks for next.
    ///
    /// A bus error stops the protocol with that error; a manufacturer other than
    /// "TI" or a model other than "INA233" stops it with a device identification
    /// error; a calibration or ADC configuration that reads back other than it was
    /// written stops it with the matching mismatch error; otherwise each completed
    /// step leads to the next one, in the order identification, model, reset,
    /// settling, calibration and its read-back, ADC configuration and its read-back.
    /// An event that does not answer the pending action changes nothing.
    pub fn step<E>(self, event: InitEvent<E>) -> (r: (Ina233Init, InitAction<E>))
        ensures
            r.0.step == next_step(self, event),
            r.0.calibration == self.calibration,
            r.0.adc_conf == self.adc_conf,
            (self.step is Ready || self.step is Failed) ==> r.0 == self && is_pending(r.0, r.1),
            !(self.step is Ready || self.step is Failed) ==> match event {
                InitEvent::BusError(e) => r.0.step == InitStep::Failed && r.1 == InitAction::Fail(
                    Error::I2C(e),
                ),
                InitEvent::Bytes2(raw) => if self.step is VerifyCalibration {
                    if reads_back(raw, self.calibration.spec_bits()) {
                        r.0.step == InitStep::WriteAdcConfig && is_pending(r.0, r.1)
                    } else {
                        r.0.step == InitStep::Failed && r.1 == InitAction::<E>::Fail(
                            Error::CalibrationMismatch,
                        )
                    }
                } else if self.step is VerifyAdcConfig {
                    if reads_back(raw, self.adc_conf.spec_bits()) {
                        r.0.step == InitStep::Ready && is_pending(r.0, r.1)
                    } else {
                        r.0.step == InitStep::Failed && r.1 == InitAction::<E>::Fail(
                            Error::ConfigurationMismatch,
                        )
                    }
                } else {
                    r.0 == self && is_pending(r.0, r.1)
                },
                InitEvent::Bytes4(raw) => if self.step is ReadId {
                    if raw@.subrange(1, 3) == expected_id() {
                        r.0.step == InitStep::ReadModel && is_pending(r.0, r.1)
                    } else {
                        r.0.step == InitStep::Failed && r.1 == InitAction::<E>::Fail(Error::DeviceId)
                    }
                } else {
                    r.0 == self && is_pending(r.0, r.1)
                },
                InitEvent::Bytes8(raw) => if self.step is ReadModel {
                    if raw@.subrange(1, 7) == expected_model() {
                        r.0.step == InitStep::Reset && is_pending(r.0, r.1)
                    } else {
                        r.0.step == InitStep::Failed && r.1 == InitAction::<E>::Fail(Error::DeviceId)
                    }
                } else {
                    r.0 == self && is_pending(r.0, r.1)
                },
                InitEvent::Completed => is_pending(r.0, r.1) && r.0.step == match self.step {
                    InitStep::Reset => InitStep::Settle,
                    InitStep::Settle => InitStep::WriteCalibration,
                    InitStep::WriteCalibration => InitStep::VerifyCalibration,
                    InitStep::WriteAdcConfig => InitStep::VerifyAdcConfig,
                    _ => self.step,
                },
            },
    {
        if matches!(self.step, InitStep::Ready | InitStep::Failed) {
            let action = self.pending();
            return (self, action);
        }
        match event {
            InitEvent::BusError(e) => {
                let init = Ina233Init { step: InitStep::Failed, ..self };
                (init, InitAction::Fail(Error::I2C(e)))
            },
            InitEvent::Bytes2(raw) => {
                if matches!(self.step, InitStep::VerifyCalibration) {
                    let expected = self.calibration.to_raw();
                    if raw[0] == expected[0] && raw[1] == expected[1] {
                        let init = Ina233Init { step: InitStep::WriteAdcConfig, ..self };
                        let action = init.pending();
                        (init, action)
                    } else {
                        let init = Ina233Init { step: InitStep::Failed, ..self };
                        (init, InitAction::Fail(Error::CalibrationMismatch))
                    }
                } else if matches!(self.step, InitStep::VerifyAdcConfig) {
                    let expected = self.adc_conf.to_raw();
                    if raw[0] == expected[0] && raw[1] == expected[1] {
                        let init = Ina233Init { step: InitStep::Ready, ..self };
                        let action = init.pending();
                        (init, action)
                    } else {
                        let init = Ina233Init { step: InitStep::Failed, ..self };
                        (init, InitAction::Fail(Error::ConfigurationMismatch))
                    }
                } else {
                    let action = self.pending();
                    (self, action)
                }
            },
            InitEvent::Bytes4(raw) => {
                if matches!(self.step, InitStep::ReadId) {
                    let id = MfrId::from_raw(raw).id();
                    if id[0] == 0x54 && id[1] == 0x49 {
                        assert(raw@.subrange(1, 3) =~= expected_id());
                        let init = Ina233Init { step: InitStep::ReadModel, ..self };
                        let action = init.pending();
                        (init, action)
                    } else {
                        let init = Ina233Init { step: InitStep::Failed, ..self };
                        (init, InitAction::Fail(Error::DeviceId))
                    }
                } else {
                    let action = self.pending();
                    (self, action)
                }
            },
            InitEvent::Bytes8(raw) => {
                if matches!(self.step, InitStep::ReadModel) {
                    let model = MfrModel::from_raw(raw).model();
                    if model[0] == 0x49 && model[1] == 0x4e && model[2] == 0x41 && model[3] == 0x32
                        && model[4] == 0x33 && model[5] == 0x33 {
                        assert(raw@.subrange(1, 7) =~= expected_model());
                        let init = Ina233Init { step: InitStep::Reset, ..self };
                        let action = init.pending();
                        (init, action)
                    } else {
                        let init = Ina233Init { step: InitStep::Failed, ..self };
                        (init, InitAction::Fail(Error::DeviceId))
                    }
                } else {
                    let action = self.pending();
                    (self, action)
                }
            },
            InitEvent::Completed => {
                let next = match self.step {
                    InitStep::Reset => InitStep::Settle,
                    InitStep::Settle => InitStep::WriteCalibration,
                    InitStep::WriteCalibration => InitStep::VerifyCalibration,
                    InitStep::WriteAdcConfig => InitStep::VerifyAdcConfig,
                    _ => self.step,
                };
                let init = Ina233Init { step: next, ..self };
                let action = init.pending();
                (init, action)
            },
        }
    }
}

} // verus!
