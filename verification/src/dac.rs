//! Driver logic for the DACx578 series of I2C digital-to-analog converters
//! (DAC5578 8-bit, DAC6578 10-bit, DAC7578 12-bit): the command and register
//! encodings that travel over the bus.

use vstd::prelude::*;
use crate::bits::{lemma_u16_split, lemma_u16_join, lemma_or_low_nibble, lemma_u16_masks};

verus! {

/// Register address of the channel input registers.
pub const INPUT_REG: u8 = 0x0;
/// Register address of the channel DAC registers.
pub const DAC_REG: u8 = 0x10;
/// Register address of the power-down register.
pub const PD_REG: u8 = 0x40;
/// Register address of the clear code register.
pub const CC_REG: u8 = 0x50;
/// Register address of the LDAC register.
pub const LDAC_REG: u8 = 0x60;
/// Command byte of a software reset.
pub const RESET_CMD: u8 = 0x70;
/// Broadcast address that every DACx578 on the bus answers.
pub const BCAST_ADDR: u8 = 0b0100_0111;

/// I2C address selected by the ADDR0 pin: pulled low, pulled high, or floating.
#[derive(Debug, Clone, Copy, PartialEq, Eq, Structural)]
pub enum Address {
    /// ADDR0 is low (0x48).
    PinLow,
    /// ADDR0 is high (0x4a).
    PinHigh,
    /// ADDR0 is floating (0x4c).
    PinFloat,
}

impl Address {
    /// The 7-bit I2C address of the device.
    pub open spec fn spec_code(self) -> u8 {
        match self {
            Address::PinLow => 0x48,
            Address::PinHigh => 0x4a,
            Address::PinFloat => 0x4c,
        }
    }

    /// The 7-bit I2C address of the device.
    pub fn code(self) -> (r: u8)
        ensures
            r == self.spec_code(),
    {
        match self {
            Address::PinLow => 0x48,
            Address::PinHigh => 0x4a,
            Address::PinFloat => 0x4c,
        }
    }

    /// The strapping that selects the I2C address `code`, if any does.
    pub open spec fn spec_from_code(code: u8) -> Option<Address> {
        if code == 0x48 {
            Some(Address::PinLow)
        } else if code == 0x4a {
            Some(Address::PinHigh)
        } else if code == 0x4c {
            Some(Address::PinFloat)
        } else {
            None
        }
    }

    /// The strapping that selects the I2C address `code`, if any does.
    pub fn from_code(code: u8) -> (r: Option<Address>)
        ensures
            r == Address::spec_from_code(code),
            r matches Some(a) ==> a.spec_code() == code,
    {
        match code {
            0x48 => Some(Address::PinLow),
            0x4a => Some(Address::PinHigh),
            0x4c => Some(Address::PinFloat),
            _ => None,
        }
    }

    /// The range of I2C addresses that the ADDR0 pin selects among, from pulled
    /// low to floating.
    pub fn address_range() -> (r: core::ops::RangeInclusive<u8>)
        ensures
            r@.start == 0x48,
            r@.end == 0x4c,
            r@.exhausted == false,
    {
        core::ops::RangeInclusive::new(0x48, 0x4c)
    }
}

/// Output channel to address: one of the eight outputs, or all of them.
#[derive(Debug, Clone, Copy, PartialEq, Eq, Structural)]
pub enum Channel {
    /// DAC output channel A
    A,
    /// DAC output channel B
    B,
    /// DAC output channel C
    C,
    /// DAC output channel D
    D,
    /// DAC output channel E
    E,
    /// DAC output channel F
    F,
    /// DAC output channel G
    G,
    /// DAC output channel H
    H,
    /// Targets all DAC output channels
    All,
}

impl Channel {
    /// The channel's code in the low nibble of a command byte.
    pub open spec fn spec_code(self) -> u8 {
        match self {
            Channel::A => 0,
            Channel::B => 1,
            Channel::C => 2,
            Channel::D => 3,
            Channel::E => 4,
            Channel::F => 5,
            Channel::G => 6,
            Channel::H => 7,
            Channel::All => 0xf,
        }
    }

    /// The channel's code in the low nibble of a command byte.
    pub fn code(self) -> (r: u8)
        ensures
            r == self.spec_code(),
            r < 16,
    {
        match self {
            Channel::A => 0,
            Channel::B => 1,
            Channel::C => 2,
            Channel::D => 3,
            Channel::E => 4,
            Channel::F => 5,
            Channel::G => 6,
            Channel::H => 7,
            Channel::All => 0xf,
        }
    }

    /// The single output channel with the given index (0 is A, 7 is H).
    pub open spec fn spec_from(index: u8) -> Channel {
        if index == 0 {
            Channel::A
        } else if index == 1 {
            Channel::B
        } else if index == 2 {
            Channel::C
        } else if index == 3 {
            Channel::D
        } else if index == 4 {
            Channel::E
        } else if index == 5 {
            Channel::F
        } else if index == 6 {
            Channel::G
        } else {
            Channel::H
        }
    }

    /// The single output channel with the given index (0 is A, 7 is H).
    pub fn from(index: u8) -> (r: Channel)
        requires
            index < 8,
        ensures
            r == Channel::spec_from(index),
            r.spec_code() == index,
    {
        match index {
            0 => Channel::A,
            1 => Channel::B,
            2 => Channel::C,
            3 => Channel::D,
            4 => Channel::E,
            5 => Channel::F,
            6 => Channel::G,
            _ => Channel::H,
        }
    }
}

/// Selection of output channels, one bit per channel (bit 0 is A, bit 7 is H).
#[derive(Debug, Clone, Copy, PartialEq, Eq, Structural)]
pub struct Channels(u8);

/// The byte `b` with bit `i` set to `v`.
pub open spec fn with_flag_of(b: u8, i: u8, v: bool) -> u8 {
    if v {
        b | (1u8 << i)
    } else {
        b & !(1u8 << i)
    }
}

impl Channels {
    /// The raw byte of the selection.
    pub closed spec fn spec_bits(self) -> u8 {
        self.0
    }

    /// Whether the channel with index `i` (0 is A) is selected.
    pub open spec fn spec_flag(self, i: u8) -> bool {
        (self.spec_bits() >> i) & 1 == 1
    }

    /// The selection with the given raw byte.
    pub closed spec fn spec_from_bits(bits: u8) -> Channels {
        Channels(bits)
    }

    /// The selection with a raw byte has that raw byte.
    pub proof fn lemma_bits_of(bits: u8)
        ensures
            #[trigger] Channels::spec_from_bits(bits).spec_bits() == bits,
    {
    }

    /// An empty selection.
    pub fn new() -> (r: Channels)
        ensures
            r.spec_bits() == 0,
    {
        Channels(0)
    }

    /// The selection with the given raw byte.
    pub fn from_bits(bits: u8) -> (r: Channels)
        ensures
            r == Channels::spec_from_bits(bits),
            r.spec_bits() == bits,
    {
        Channels(bits)
    }

    /// The raw byte of the selection.
    pub fn into_bits(self) -> (r: u8)
        ensures
            r == self.spec_bits(),
    {
        self.0
    }

    /// Whether output channel A is selected.
    #[allow(non_snake_case)]
    pub fn A(&self) -> (r: bool)
        ensures
            r == self.spec_flag(0),
    {
        self.flag(0)
    }

    /// This selection with output channel A set to `value`.
    #[allow(non_snake_case)]
    pub fn with_A(self, value: bool) -> (r: Channels)
        ensures
            r.spec_bits() == with_flag_of(self.spec_bits(), 0, value),
            r.spec_flag(0) == value,
            forall|j: u8| j < 8 && j != 0 ==> r.spec_flag(j) == self.spec_flag(j),
    {
        self.with_flag(0, value)
    }

    /// Sets output channel A to `value`.
    #[allow(non_snake_case)]
    pub fn set_A(&mut self, value: bool)
        ensures
            final(self).spec_bits() == with_flag_of(old(self).spec_bits(), 0, value),
            final(self).spec_flag(0) == value,
            forall|j: u8| j < 8 && j != 0 ==> final(self).spec_flag(j) == old(self).spec_flag(j),
    {
        *self = self.with_flag(0, value);
    }

    /// Whether output channel B is selected.
    #[allow(non_snake_case)]
    pub fn B(&self) -> (r: bool)
        ensures
            r == self.spec_flag(1),
    {
        self.flag(1)
    }

    /// This selection with output channel B set to `value`.
    #[allow(non_snake_case)]
    pub fn with_B(self, value: bool) -> (r: Channels)
        ensures
            r.spec_bits() == with_flag_of(self.spec_bits(), 1, value),
            r.spec_flag(1) == value,
            forall|j: u8| j < 8 && j != 1 ==> r.spec_flag(j) == self.spec_flag(j),
    {
        self.with_flag(1, value)
    }

    /// Sets output channel B to `value`.
    #[allow(non_snake_case)]
    pub fn set_B(&mut self, value: bool)
        ensures
            final(self).spec_bits() == with_flag_of(old(self).spec_bits(), 1, value),
            final(self).spec_flag(1) == value,
            forall|j: u8| j < 8 && j != 1 ==> final(self).spec_flag(j) == old(self).spec_flag(j),
    {
        *self = self.with_flag(1, value);
    }

    /// Whether output channel C is selected.
    #[allow(non_snake_case)]
    pub fn C(&self) -> (r: bool)
        ensures
            r == self.spec_flag(2),
    {
        self.flag(2)
    }

    /// This selection with output channel C set to `value`.
    #[allow(non_snake_case)]
    pub fn with_C(self, value: bool) -> (r: Channels)
        ensures
            r.spec_bits() == with_flag_of(self.spec_bits(), 2, value),
            r.spec_flag(2) == value,
            forall|j: u8| j < 8 && j != 2 ==> r.spec_flag(j) == self.spec_flag(j),
    {
        self.with_flag(2, value)
    }

    /// Sets output channel C to `value`.
    #[allow(non_snake_case)]
    pub fn set_C(&mut self, value: bool)
        ensures
            final(self).spec_bits() == with_flag_of(old(self).spec_bits(), 2, value),
            final(self).spec_flag(2) == value,
            forall|j: u8| j < 8 && j != 2 ==> final(self).spec_flag(j) == old(self).spec_flag(j),
    {
        *self = self.with_flag(2, value);
    }

    /// Whether output channel D is selected.
    #[allow(non_snake_case)]
    pub fn D(&self) -> (r: bool)
        ensures
            r == self.spec_flag(3),
    {
        self.flag(3)
    }

    /// This selection with output channel D set to `value`.
    #[allow(non_snake_case)]
    pub fn with_D(self, value: bool) -> (r: Channels)
        ensures
            r.spec_bits() == with_flag_of(self.spec_bits(), 3, value),
            r.spec_flag(3) == value,
            forall|j: u8| j < 8 && j != 3 ==> r.spec_flag(j) == self.spec_flag(j),
    {
        self.with_flag(3, value)
    }

    /// Sets output channel D to `value`.
    #[allow(non_snake_case)]
    pub fn set_D(&mut self, value: bool)
        ensures
            final(self).spec_bits() == with_flag_of(old(self).spec_bits(), 3, value),
            final(self).spec_flag(3) == value,
            forall|j: u8| j < 8 && j != 3 ==> final(self).spec_flag(j) == old(self).spec_flag(j),
    {
        *self = self.with_flag(3, value);
    }

    /// Whether output channel E is selected.
    #[allow(non_snake_case)]
    pub fn E(&self) -> (r: bool)
        ensures
            r == self.spec_flag(4),
    {
        self.flag(4)
    }

    /// This selection with output channel E set to `value`.
    #[allow(non_snake_case)]
    pub fn with_E(self, value: bool) -> (r: Channels)
        ensures
            r.spec_bits() == with_flag_of(self.spec_bits(), 4, value),
            r.spec_flag(4) == value,
            forall|j: u8| j < 8 && j != 4 ==> r.spec_flag(j) == self.spec_flag(j),
    {
        self.with_flag(4, value)
    }

    /// Sets output channel E to `value`.
    #[allow(non_snake_case)]
    pub fn set_E(&mut self, value: bool)
        ensures
            final(self).spec_bits() == with_flag_of(old(self).spec_bits(), 4, value),
            final(self).spec_flag(4) == value,
            forall|j: u8| j < 8 && j != 4 ==> final(self).spec_flag(j) == old(self).spec_flag(j),
    {
        *self = self.with_flag(4, value);
    }

    /// Whether output channel F is selected.
    #[allow(non_snake_case)]
    pub fn F(&self) -> (r: bool)
        ensures
            r == self.spec_flag(5),
    {
        self.flag(5)
    }

    /// This selection with output channel F set to `value`.
    #[allow(non_snake_case)]
    pub fn with_F(self, value: bool) -> (r: Channels)
        ensures
            r.spec_bits() == with_flag_of(self.spec_bits(), 5, value),
            r.spec_flag(5) == value,
            forall|j: u8| j < 8 && j != 5 ==> r.spec_flag(j) == self.spec_flag(j),
    {
        self.with_flag(5, value)
    }

    /// Sets output channel F to `value`.
    #[allow(non_snake_case)]
    pub fn set_F(&mut self, value: bool)
        ensures
            final(self).spec_bits() == with_flag_of(old(self).spec_bits(), 5, value),
            final(self).spec_flag(5) == value,
            forall|j: u8| j < 8 && j != 5 ==> final(self).spec_flag(j) == old(self).spec_flag(j),
    {
        *self = self.with_flag(5, value);
    }

    /// Whether output channel G is selected.
    #[allow(non_snake_case)]
    pub fn G(&self) -> (r: bool)
        ensures
            r == self.spec_flag(6),
    {
        self.flag(6)
    }

    /// This selection with output channel G set to `value`.
    #[allow(non_snake_case)]
    pub fn with_G(self, value: bool) -> (r: Channels)
        ensures
            r.spec_bits() == with_flag_of(self.spec_bits(), 6, value),
            r.spec_flag(6) == value,
            forall|j: u8| j < 8 && j != 6 ==> r.spec_flag(j) == self.spec_flag(j),
    {
        self.with_flag(6, value)
    }

    /// Sets output channel G to `value`.
    #[allow(non_snake_case)]
    pub fn set_G(&mut self, value: bool)
        ensures
            final(self).spec_bits() == with_flag_of(old(self).spec_bits(), 6, value),
            final(self).spec_flag(6) == value,
            forall|j: u8| j < 8 && j != 6 ==> final(self).spec_flag(j) == old(self).spec_flag(j),
    {
        *self = self.with_flag(6, value);
    }

    /// Whether output channel H is selected.
    #[allow(non_snake_case)]
    pub fn H(&self) -> (r: bool)
        ensures
            r == self.spec_flag(7),
    {
        self.flag(7)
    }

    /// This selection with output channel H set to `value`.
    #[allow(non_snake_case)]
    pub fn with_H(self, value: bool) -> (r: Channels)
        ensures
            r.spec_bits() == with_flag_of(self.spec_bits(), 7, value),
            r.spec_flag(7) == value,
            forall|j: u8| j < 8 && j != 7 ==> r.spec_flag(j) == self.spec_flag(j),
    {
        self.with_flag(7, value)
    }

    /// Sets output channel H to `value`.
    #[allow(non_snake_case)]
    pub fn set_H(&mut self, value: bool)
        ensures
            final(self).spec_bits() == with_flag_of(old(self).spec_bits(), 7, value),
            final(self).spec_flag(7) == value,
            forall|j: u8| j < 8 && j != 7 ==> final(self).spec_flag(j) == old(self).spec_flag(j),
    {
        *self = self.with_flag(7, value);
    }

    fn flag(&self, i: u8) -> (r: bool)
        requires
            i < 8,
        ensures
            r == self.spec_flag(i),
    {
        (self.0 >> i) & 1 == 1
    }

    fn with_flag(self, i: u8, v: bool) -> (r: Channels)
        requires
            i < 8,
        ensures
            r.spec_bits() == with_flag_of(self.spec_bits(), i, v),
            r.spec_flag(i) == v,
            forall|j: u8| j < 8 && j != i ==> r.spec_flag(j) == self.spec_flag(j),
    {
        proof {
            lemma_with_flag(self.0, i, v);
        }
        if v {
            Channels(self.0 | (1u8 << i))
        } else {
            Channels(self.0 & !(1u8 << i))
        }
    }
}

impl From<u8> for Channels {
    fn from(bits: u8) -> (r: Channels) {
        Channels(bits)
    }
}

impl vstd::std_specs::convert::FromSpecImpl<u8> for Channels {
    open spec fn obeys_from_spec() -> bool {
        true
    }

    open spec fn from_spec(bits: u8) -> Channels {
        Channels::spec_from_bits(bits)
    }
}

impl From<Channels> for u8 {
    fn from(channels: Channels) -> (r: u8) {
        channels.0
    }
}

impl vstd::std_specs::convert::FromSpecImpl<Channels> for u8 {
    open spec fn obeys_from_spec() -> bool {
        true
    }

    open spec fn from_spec(channels: Channels) -> u8 {
        channels.spec_bits()
    }
}

/// Setting one bit leaves the other bits unchanged.
pub proof fn lemma_with_flag(b: u8, i: u8, v: bool)
    requires
        i < 8,
    ensures
        (with_flag_of(b, i, v) >> i) & 1 == 1 <==> v,
        forall|j: u8| j < 8 && j != i ==> ((with_flag_of(b, i, v) >> j) & 1 == 1 <==> (b >> j) & 1 == 1),
{
    assert(i < 8 ==> ((b | (1u8 << i)) >> i) & 1 == 1 && ((b & !(1u8 << i)) >> i) & 1 == 0) by (bit_vector);
    assert forall|j: u8| j < 8 && j != i implies ((with_flag_of(b, i, v) >> j) & 1 == 1 <==> (b >> j) & 1 == 1) by {
        assert(i < 8 && j < 8 && j != i ==> ((b | (1u8 << i)) >> j) & 1 == (b >> j) & 1 && ((b & !(1u8 << i)) >> j) & 1 == (b >> j) & 1) by (bit_vector);
    }
}

} // verus!

verus! {

/// The type of a channel command, in the high nibble of the command byte.
#[derive(Debug, Clone, Copy, PartialEq, Eq, Structural)]
pub enum CommandType {
    /// Write to the channel's DAC input register
    Write,
    /// Selects DAC channel to be updated
    Update,
    /// Write to DAC input register for a channel and update channel DAC register
    WriteUpdate,
    /// Write to Selected DAC Input Register and Update All DAC Registers (Global Software LDAC)
    WriteUpdateAll,
}

impl CommandType {
    /// The command's bits in the command byte.
    pub open spec fn spec_code(self) -> u8 {
        match self {
            CommandType::Write => 0x0,
            CommandType::Update => 0x10,
            CommandType::WriteUpdate => 0x30,
            CommandType::WriteUpdateAll => 0x20,
        }
    }

    /// The command's bits in the command byte.
    pub fn code(self) -> (r: u8)
        ensures
            r == self.spec_code(),
    {
        match self {
            CommandType::Write => 0x0,
            CommandType::Update => 0x10,
            CommandType::WriteUpdate => 0x30,
            CommandType::WriteUpdateAll => 0x20,
        }
    }
}

/// A register to read back from the device.
#[derive(Debug, Clone, Copy, PartialEq, Eq, Structural)]
pub enum Register {
    /// Read the value from the specified channel input register
    ChannelInput(Channel),
    /// Read the value from the specified channel DAC register
    ChannelDac(Channel),
    /// Read the value from the power-down register
    PowerDown,
    /// Read the value from the clear code register
    ClearCode,
    /// Read the value from the LDAC register
    Ldac,
}

impl Register {
    /// The register's address byte.
    pub open spec fn spec_into(self) -> u8 {
        match self {
            Register::ChannelInput(channel) => channel.spec_code(),
            Register::ChannelDac(channel) => (channel.spec_code() + DAC_REG) as u8,
            Register::PowerDown => PD_REG,
            Register::ClearCode => CC_REG,
            Register::Ldac => LDAC_REG,
        }
    }

    /// The register's address byte, as sent before a read.
    pub fn into(self) -> (r: u8)
        ensures
            r == self.spec_into(),
    {
        match self {
            Register::ChannelInput(channel) => {
                let code: u8 = channel.code();
                proof {
                    lemma_or_low_nibble(INPUT_REG, code);
                }
                code | INPUT_REG
            },
            Register::ChannelDac(channel) => {
                let code: u8 = channel.code();
                proof {
                    lemma_or_low_nibble(DAC_REG, code);
                }
                code | DAC_REG
            },
            Register::PowerDown => PD_REG,
            Register::ClearCode => CC_REG,
            Register::Ldac => LDAC_REG,
        }
    }
}

/// Power-down modes of the outputs.
#[derive(Debug, Clone, Copy, PartialEq, Eq, Structural)]
pub enum PowerDownMode {
    /// Normal operation
    Normal,
    /// 1 kΩ to GND
    KOhm1ToGnd,
    /// 100 kΩ to GND
    KOhm100ToGnd,
    /// High-Z state
    HighZ,
}

impl PowerDownMode {
    /// The mode's two-bit code.
    pub open spec fn spec_code(self) -> u8 {
        match self {
            PowerDownMode::Normal => 0b00,
            PowerDownMode::KOhm1ToGnd => 0b01,
            PowerDownMode::KOhm100ToGnd => 0b10,
            PowerDownMode::HighZ => 0b11,
        }
    }

    /// The mode with the given two-bit code.
    pub open spec fn spec_from_code(code: int) -> PowerDownMode {
        if code == 0 {
            PowerDownMode::Normal
        } else if code == 1 {
            PowerDownMode::KOhm1ToGnd
        } else if code == 2 {
            PowerDownMode::KOhm100ToGnd
        } else {
            PowerDownMode::HighZ
        }
    }

    /// The mode's two-bit code.
    pub fn code(self) -> (r: u8)
        ensures
            r == self.spec_code(),
    {
        match self {
            PowerDownMode::Normal => 0b00,
            PowerDownMode::KOhm1ToGnd => 0b01,
            PowerDownMode::KOhm100ToGnd => 0b10,
            PowerDownMode::HighZ => 0b11,
        }
    }
}

/// What the outputs do when the Clear pin is activated.
#[derive(Debug, Clone, Copy, PartialEq, Eq, Structural)]
pub enum ClearCode {
    /// Outputs are set to 0V when Clear pin is activated.
    ZeroScale,
    /// Outputs are set to mid-scale when Clear pin is activated.
    MidScale,
    /// Outputs are set to full-scale when Clear pin is activated.
    FullScale,
    /// Clear pin functionality is disabled.
    Disabled,
}

impl ClearCode {
    /// The clear code's two-bit code.
    pub open spec fn spec_code(self) -> u8 {
        match self {
            ClearCode::ZeroScale => 0b00,
            ClearCode::MidScale => 0b01,
            ClearCode::FullScale => 0b10,
            ClearCode::Disabled => 0b11,
        }
    }

    /// The clear code with the given two-bit code.
    pub open spec fn spec_from_code(code: int) -> ClearCode {
        if code == 0 {
            ClearCode::ZeroScale
        } else if code == 1 {
            ClearCode::MidScale
        } else if code == 2 {
            ClearCode::FullScale
        } else {
            ClearCode::Disabled
        }
    }

    /// The clear code's two-bit code.
    pub fn code(self) -> (r: u8)
        ensures
            r == self.spec_code(),
    {
        match self {
            ClearCode::ZeroScale => 0b00,
            ClearCode::MidScale => 0b01,
            ClearCode::FullScale => 0b10,
            ClearCode::Disabled => 0b11,
        }
    }
}

/// The kind of software reset.
#[derive(Debug, Clone, Copy, PartialEq, Eq, Structural)]
pub enum ResetMode {
    /// Software reset (default). Same as power-on reset (POR).
    Por,
    /// Software reset that sets device into High-Speed mode
    SetHighSpeed,
    /// Software reset that maintains High-Speed mode state
    MaintainHighSpeed,
}

impl ResetMode {
    /// The reset mode's two-bit code.
    pub open spec fn spec_code(self) -> u8 {
        match self {
            ResetMode::Por => 0b00,
            ResetMode::SetHighSpeed => 0b01,
            ResetMode::MaintainHighSpeed => 0b10,
        }
    }

    /// The reset mode's two-bit code.
    pub fn code(self) -> (r: u8)
        ensures
            r == self.spec_code(),
    {
        match self {
            ResetMode::Por => 0b00,
            ResetMode::SetHighSpeed => 0b01,
            ResetMode::MaintainHighSpeed => 0b10,
        }
    }
}

/// A register's content: what a read returns, and what a configuration write sets.
#[derive(Debug, Clone, Copy, PartialEq, Eq, Structural)]
pub enum Configuration {
    /// Value of the specified channel input register
    ChannelInput {
        /// The channel of the register
        channel: Channel,
        /// The value of the channel input register
        value: u16,
    },
    /// Value of the specified channel DAC register
    ChannelDac {
        /// The channel of the register
        channel: Channel,
        /// The value of the channel DAC register
        value: u16,
    },
    /// Value of the power-down register
    PowerDown {
        /// The power-down mode
        mode: PowerDownMode,
        /// Selected channels
        channels: Channels,
    },
    /// Value of the clear code register
    ClearCode(ClearCode),
    /// Value of the LDAC register
    Ldac(Channels),
}

/// The big-endian 16-bit word of two bytes.
pub open spec fn be_word(hi: u8, lo: u8) -> u16 {
    (hi * 256 + lo) as u16
}

/// The three bytes of a command: the command byte, then the value big-endian.
pub open spec fn frame(command: u8, value: u16) -> Seq<u8> {
    seq![command, (value / 256) as u8, (value % 256) as u8]
}

impl Configuration {
    /// The register whose content this configuration is.
    pub open spec fn register(self) -> Register {
        match self {
            Configuration::ChannelInput { channel, .. } => Register::ChannelInput(channel),
            Configuration::ChannelDac { channel, .. } => Register::ChannelDac(channel),
            Configuration::PowerDown { .. } => Register::PowerDown,
            Configuration::ClearCode(_) => Register::ClearCode,
            Configuration::Ldac(_) => Register::Ldac,
        }
    }

    /// What reading `register` yields when the device answers with the 16-bit word `value`.
    ///
    /// The word is laid out as a write of the register lays it out: channel registers
    /// keep the upper twelve bits; the power-down register holds the channel selection
    /// in bits 5 to 12 and the mode in bits 13 and 14; the clear code register holds
    /// its code in bits 4 and 5; the LDAC register holds the channel selection in its
    /// high byte.
    pub open spec fn spec_from(register: Register, value: u16) -> Configuration {
        match register {
            Register::ChannelInput(channel) => Configuration::ChannelInput {
                channel,
                value: (value - value % 16) as u16,
            },
            Register::ChannelDac(channel) => Configuration::ChannelDac {
                channel,
                value: (value - value % 16) as u16,
            },
            Register::PowerDown => Configuration::PowerDown {
                mode: PowerDownMode::spec_from_code((value / 8192) as int % 4),
                channels: Channels::spec_from_bits(((value / 32) % 256) as u8),
            },
            Register::ClearCode => Configuration::ClearCode(
                ClearCode::spec_from_code((value / 16) as int % 4),
            ),
            Register::Ldac => Configuration::Ldac(Channels::spec_from_bits((value / 256) as u8)),
        }
    }

    /// The value bits that a power-down write carries: the mode above the channel
    /// selection, shifted up by five.
    pub open spec fn power_down_word(mode: PowerDownMode, channels: Channels) -> u16 {
        ((mode.spec_code() * 256 + channels.spec_bits()) * 32) as u16
    }

    /// The three bytes that write this configuration.
    pub open spec fn spec_into(self) -> Seq<u8> {
        match self {
            Configuration::Ldac(channels) => seq![LDAC_REG, channels.spec_bits(), 0u8],
            Configuration::ClearCode(clear_code) => seq![CC_REG, 0u8, (clear_code.spec_code() * 16) as u8],
            Configuration::PowerDown { mode, channels } => frame(
                PD_REG,
                Configuration::power_down_word(mode, channels),
            ),
            Configuration::ChannelInput { channel, value } => frame(channel.spec_code(), value),
            Configuration::ChannelDac { channel, value } => frame(
                (channel.spec_code() + DAC_REG) as u8,
                value,
            ),
        }
    }

    /// Decodes the word read back from `value.0`.
    pub fn from(value: (Register, u16)) -> (r: Configuration)
        ensures
            r == Configuration::spec_from(value.0, value.1),
    {
        let (reg, value) = value;
        proof {
            lemma_u16_masks(value);
            lemma_u16_split(value);
        }
        match reg {
            Register::ChannelInput(channel) => Configuration::ChannelInput {
                channel,
                value: value & 0xfff0,
            },
            Register::ChannelDac(channel) => Configuration::ChannelDac {
                channel,
                value: value & 0xfff0,
            },
            Register::PowerDown => {
                let channels = Channels::from_bits(((value >> 5) & 0xff) as u8);
                let mode = match (value >> 13) & 0b11 {
                    0b00 => PowerDownMode::Normal,
                    0b01 => PowerDownMode::KOhm1ToGnd,
                    0b10 => PowerDownMode::KOhm100ToGnd,
                    _ => PowerDownMode::HighZ,
                };
                Configuration::PowerDown { mode, channels }
            },
            Register::ClearCode => {
                let clear_code = match (value >> 4) & 0b11 {
                    0b00 => ClearCode::ZeroScale,
                    0b01 => ClearCode::MidScale,
                    0b10 => ClearCode::FullScale,
                    _ => ClearCode::Disabled,
                };
                Configuration::ClearCode(clear_code)
            },
            Register::Ldac => Configuration::Ldac(Channels::from_bits((value >> 8) as u8)),
        }
    }

    /// The three bytes that write this configuration.
    pub fn into(self) -> (r: [u8; 3])
        ensures
            r@ == self.spec_into(),
    {
        match self {
            Configuration::Ldac(channels) => {
                let command_byte = LDAC_REG;
                let high_byte = channels.into_bits();
                let low_byte: u8 = 0;
                let r = [command_byte, high_byte, low_byte];
                assert(r@ =~= self.spec_into());
                r
            },
            Configuration::ClearCode(clear_code) => {
                let command_byte = CC_REG;
                let high_byte: u8 = 0;
                let code: u8 = clear_code.code();
                assert(code << 4u8 == code * 16) by (bit_vector)
                    requires
                        code < 4,
                ;
                let low_byte: u8 = code << 4;
                let r = [command_byte, high_byte, low_byte];
                assert(r@ =~= self.spec_into());
                r
            },
            Configuration::PowerDown { mode, channels } => {
                let command_byte = PD_REG;
                let m: u8 = mode.code();
                let b: u8 = channels.into_bits();
                assert((((m as u16) << 8u16 | (b as u16)) << 5u16) == (m * 256 + b) * 32)
                    by (bit_vector)
                    requires
                        m < 4,
                ;
                let value: u16 = ((m as u16) << 8 | (b as u16)) << 5;
                proof {
                    lemma_u16_split(value);
                }
                let high_byte = (value >> 8) as u8;
                let low_byte = (value & 0xff) as u8;
                let r = [command_byte, high_byte, low_byte];
                assert(r@ =~= self.spec_into());
                r
            },
            Configuration::ChannelInput { channel, value } => {
                let code: u8 = channel.code();
                proof {
                    lemma_or_low_nibble(INPUT_REG, code);
                    lemma_u16_split(value);
                }
                let command_byte = code | INPUT_REG;
                let high_byte = (value >> 8) as u8;
                let low_byte = (value & 0xff) as u8;
                let r = [command_byte, high_byte, low_byte];
                assert(r@ =~= self.spec_into());
                r
            },
            Configuration::ChannelDac { channel, value } => {
                let code: u8 = channel.code();
                proof {
                    lemma_or_low_nibble(DAC_REG, code);
                    lemma_u16_split(value);
                }
                let command_byte = code | DAC_REG;
                let high_byte = (value >> 8) as u8;
                let low_byte = (value & 0xff) as u8;
                let r = [command_byte, high_byte, low_byte];
                assert(r@ =~= self.spec_into());
                r
            },
        }
    }
}

} // verus!

verus! {

/// Command byte that wakes up every device on the bus.
pub const WAKE_UP_CMD: u8 = 0x6;
/// Command byte that resets every device on the bus.
pub const RESET_ALL_CMD: u8 = 0x9;

/// A value that can be written to the DAC: it scales to the 16-bit code sent
/// over the bus, relative to a full-scale value of its own type.
pub trait ValidValue: Copy {
    /// The 16-bit code of `self` against the full-scale value `scale`.
    spec fn spec_scale(self, scale: Self) -> u16;

    /// The zero-scale value.
    spec fn spec_zero() -> Self;

    /// The value that the code `value` stands for against the full-scale value `self`.
    spec fn spec_invert(self, value: u16) -> Self;

    /// Scale the value to u16
    fn scale(self, scale: Self) -> (r: u16)
        ensures
            r == self.spec_scale(scale),
    ;

    /// Get the zero scale value
    fn zero() -> (r: Self)
        ensures
            r == Self::spec_zero(),
    ;

    /// Invert the scaling of the value, converting from a u16 back to the original type
    fn invert(self, value: u16) -> (r: Self)
        ensures
            r == self.spec_invert(value),
    ;
}

impl ValidValue for u16 {
    /// A raw code is already scaled: the full-scale value plays no part.
    open spec fn spec_scale(self, scale: u16) -> u16 {
        self
    }

    open spec fn spec_zero() -> u16 {
        0
    }

    open spec fn spec_invert(self, value: u16) -> u16 {
        value
    }

    fn scale(self, _scale: Self) -> (r: u16) {
        self
    }

    fn zero() -> (r: u16) {
        0u16
    }

    fn invert(self, value: u16) -> (r: u16) {
        value
    }
}

/// The command byte of `command` aimed at `channel`: the command in the high
/// nibble, the channel in the low nibble.
pub open spec fn command_byte(command: CommandType, channel: Channel) -> u8 {
    (command.spec_code() + channel.spec_code()) as u8
}

/// The three bytes of a channel command carrying the 16-bit code `value`.
pub fn command_bytes(command: CommandType, channel: Channel, value: u16) -> (r: [u8; 3])
    ensures
        r@ == frame(command_byte(command, channel), value),
        r[0] % 16 == channel.spec_code(),
        r[0] / 16 == command.spec_code() / 16,
        be_word(r[1], r[2]) == value,
{
    let c: u8 = command.code();
    let ch: u8 = channel.code();
    proof {
        lemma_or_low_nibble(c, ch);
        lemma_u16_split(value);
    }
    let first = c | ch;
    let high_byte = (value >> 8) as u8;
    let low_byte = (value & 0xff) as u8;
    let r = [first, high_byte, low_byte];
    assert(r@ =~= frame(command_byte(command, channel), value));
    r
}

/// The bytes of a software reset of the given kind.
pub fn reset_bytes(mode: ResetMode) -> (r: [u8; 3])
    ensures
        r@ == seq![RESET_CMD, mode.spec_code(), 0u8],
{
    let r = [RESET_CMD, mode.code(), 0x0];
    assert(r@ =~= seq![RESET_CMD, mode.spec_code(), 0u8]);
    r
}

/// The DACx578 device instance, on an I2C bus `I2C`, written with values of
/// type `T` relative to a full-scale value.
///
/// DAC5578 is a 8-bit DAC, DAC6578 a 10-bit DAC, DAC7578 a 12-bit DAC: the
/// upper bits of the 16-bit code are used depending on the resolution.
pub struct DacX578<I2C, T> {
    i2c: I2C,
    address: u8,
    scale: T,
}

impl<I2C, T: ValidValue> DacX578<I2C, T> {
    /// The bus the device sits on.
    pub closed spec fn spec_i2c(self) -> I2C {
        self.i2c
    }

    /// The device's 7-bit I2C address.
    pub closed spec fn spec_address(self) -> u8 {
        self.address
    }

    /// The full-scale value that values are scaled against.
    pub closed spec fn spec_scale(self) -> T {
        self.scale
    }

    /// Creates a new instance of the DACx578 driver.
    pub fn new(i2c: I2C, address: Address, scale: T) -> (r: Self)
        ensures
            r.spec_i2c() == i2c,
            r.spec_address() == address.spec_code(),
            r.spec_scale() == scale,
    {
        DacX578 { i2c, address: address.code(), scale }
    }

    /// The device's 7-bit I2C address.
    pub fn address(&self) -> (r: u8)
        ensures
            r == self.spec_address(),
    {
        self.address
    }

    /// The bus the device sits on, to carry a transfer.
    pub fn i2c_mut(&mut self) -> (r: &mut I2C)
        ensures
            *r == old(self).spec_i2c(),
            final(self).spec_i2c() == *final(r),
            final(self).spec_address() == old(self).spec_address(),
            final(self).spec_scale() == old(self).spec_scale(),
    {
        &mut self.i2c
    }

    /// The bytes of `command` aimed at `channel` with `value`, scaled against the
    /// device's full-scale value by `T::scale`.
    ///
    /// The code that `T` scales the value to travels big-endian after the command
    /// byte, as [`command_bytes`] states.
    pub fn get_command_bytes(&self, command: CommandType, channel: Channel, value: T) -> (r: [u8; 3])
        ensures
            r@ == frame(command_byte(command, channel), value.spec_scale(self.spec_scale())),
            r[0] == command_byte(command, channel),
    {
        let code: u16 = value.scale(self.scale);
        command_bytes(command, channel, code)
    }

    /// What a read of `register` yields when the device answers with the two bytes `buf`,
    /// most significant first.
    pub fn decode_read(register: Register, buf: [u8; 2]) -> (r: Configuration)
        ensures
            r == Configuration::spec_from(register, be_word(buf[0], buf[1])),
    {
        proof {
            lemma_u16_join(buf[0], buf[1]);
        }
        let value: u16 = (buf[0] as u16) << 8 | (buf[1] as u16);
        Configuration::from((register, value))
    }
}

/// A configuration write addresses the very register that reading the
/// configuration back addresses.
pub proof fn lemma_write_targets_register(config: Configuration)
    ensures
        config.spec_into()[0] == config.register().spec_into(),
{
}

/// Reading back the power-down, clear code or LDAC register after writing a
/// configuration to it yields that very configuration.
pub proof fn lemma_settings_read_back(config: Configuration)
    requires
        config is PowerDown || config is ClearCode || config is Ldac,
    ensures
        Configuration::spec_from(
            config.register(),
            be_word(config.spec_into()[1], config.spec_into()[2]),
        ) == config,
{
    match config {
        Configuration::PowerDown { mode, channels } => {
            let w = Configuration::power_down_word(mode, channels);
            let m = mode.spec_code();
            let b = channels.spec_bits();
            assert(w == (m * 256 + b) * 32);
            assert(be_word((w / 256) as u8, (w % 256) as u8) == w);
            assert(w / 8192 == m);
            assert((w / 32) % 256 == b);
        },
        Configuration::ClearCode(code) => {
            assert(be_word(0u8, (code.spec_code() * 16) as u8) == code.spec_code() * 16);
        },
        Configuration::Ldac(channels) => {
            assert(be_word(channels.spec_bits(), 0u8) == channels.spec_bits() * 256);
        },
        _ => {},
    }
}

/// Reading back a channel register after writing `value` to it yields `value`
/// with its four low bits cleared: the twelve upper bits are what the device keeps.
pub proof fn lemma_channel_read_back(config: Configuration)
    requires
        config is ChannelInput || config is ChannelDac,
    ensures
        Configuration::spec_from(
            config.register(),
            be_word(config.spec_into()[1], config.spec_into()[2]),
        ) == (match config {
            Configuration::ChannelInput { channel, value } => Configuration::ChannelInput {
                channel,
                value: (value - value % 16) as u16,
            },
            Configuration::ChannelDac { channel, value } => Configuration::ChannelDac {
                channel,
                value: (value - value % 16) as u16,
            },
            _ => config,
        }),
{
}

} // verus!
