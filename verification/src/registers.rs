//! The INA233 registers: the ADC configuration word with its enumerated fields,
//! the measurement registers, the manufacturer identification registers and the
//! calibration register, with their little-endian wire format.

use vstd::prelude::*;
use crate::bits::{
    le_value, lemma_low3, lemma_u16_fields3, lemma_u16_set_field3,
    lemma_le_value_injective, pow256, u16_from_le_bytes, u16_to_le_bytes, u32_from_le_bytes, u32_to_le_bytes,
    u64_from_le_bytes, u64_to_le_bytes,
};

verus! {

/// Which inputs the ADC measures.
#[derive(Copy, Clone, Debug, PartialEq, Eq, Structural)]
pub enum MeasureActive {
    /// Shunt voltage only.
    Shunt,
    /// Bus voltage only.
    Bus,
    /// Shunt and bus voltage.
    Both,
}

impl MeasureActive {
    /// The two-bit code of the selection.
    pub open spec fn spec_code(self) -> u8 {
        match self {
            MeasureActive::Shunt => 0b01,
            MeasureActive::Bus => 0b10,
            MeasureActive::Both => 0b11,
        }
    }

    /// The two-bit code of the selection.
    pub fn code(self) -> (r: u8)
        ensures
            r == self.spec_code(),
    {
        match self {
            MeasureActive::Shunt => 0b01,
            MeasureActive::Bus => 0b10,
            MeasureActive::Both => 0b11,
        }
    }
}

impl Default for MeasureActive {
    fn default() -> (r: Self)
        ensures
            r == MeasureActive::Both,
    {
        MeasureActive::Both
    }
}

/// Operating mode of the ADC.
#[derive(Copy, Clone, Debug, PartialEq, Eq, Structural)]
pub enum AdcMode {
    /// The ADC is off.
    PowerDown,
    /// One conversion per trigger.
    Triggered(MeasureActive),
    /// Conversions run continuously.
    Continuous(MeasureActive),
}

impl Default for AdcMode {
    fn default() -> (r: Self)
        ensures
            r == AdcMode::Continuous(MeasureActive::Both),
    {
        Self::Continuous(MeasureActive::default())
    }
}

impl AdcMode {
    /// The mode's three-bit code: bit 2 for continuous, bits 0 and 1 for the inputs.
    pub open spec fn spec_into_u8(mode: AdcMode) -> u8 {
        match mode {
            AdcMode::PowerDown => 0b000,
            AdcMode::Triggered(c) => c.spec_code(),
            AdcMode::Continuous(c) => (c.spec_code() + 0b100) as u8,
        }
    }

    /// The mode of a three-bit code; only the three low bits of `value` count, and a
    /// code that selects no input is power-down.
    pub open spec fn spec_from_u8(value: u8) -> AdcMode {
        let code = value % 8;
        if code == 0b000 || code == 0b100 {
            AdcMode::PowerDown
        } else if code == 0b001 {
            AdcMode::Triggered(MeasureActive::Shunt)
        } else if code == 0b010 {
            AdcMode::Triggered(MeasureActive::Bus)
        } else if code == 0b011 {
            AdcMode::Triggered(MeasureActive::Both)
        } else if code == 0b101 {
            AdcMode::Continuous(MeasureActive::Shunt)
        } else if code == 0b110 {
            AdcMode::Continuous(MeasureActive::Bus)
        } else {
            AdcMode::Continuous(MeasureActive::Both)
        }
    }

    /// The mode's three-bit code.
    pub fn into_u8(mode: AdcMode) -> (r: u8)
        ensures
            r == AdcMode::spec_into_u8(mode),
            r < 8,
    {
        match mode {
            AdcMode::PowerDown => 0b000,
            AdcMode::Triggered(c) => c.code(),
            AdcMode::Continuous(c) => {
                let code: u8 = c.code();
                assert(code | 0b100u8 == code + 4) by (bit_vector)
                    requires
                        code < 4,
                ;
                code | 0b100
            },
        }
    }

    /// The mode of the three low bits of `value`.
    pub fn from_u8(value: u8) -> (r: AdcMode)
        ensures
            r == AdcMode::spec_from_u8(value),
    {
        proof {
            lemma_low3(value);
        }
        match value & 0b111 {
            0b000 | 0b100 => AdcMode::PowerDown,
            0b001 => AdcMode::Triggered(MeasureActive::Shunt),
            0b010 => AdcMode::Triggered(MeasureActive::Bus),
            0b011 => AdcMode::Triggered(MeasureActive::Both),
            0b101 => AdcMode::Continuous(MeasureActive::Shunt),
            0b110 => AdcMode::Continuous(MeasureActive::Bus),
            _ => AdcMode::Continuous(MeasureActive::Both),
        }
    }
}

/// Conversion time of one ADC sample.
#[derive(Copy, Clone, Debug, PartialEq, Eq, Structural)]
pub enum ConversionTime {
    /// 140 µs
    Us140,
    /// 204 µs
    Us204,
    /// 332 µs
    Us332,
    /// 588 µs
    Us588,
    /// 1.1 ms
    Ms1_1,
    /// 2.116 ms
    Ms2_116,
    /// 4.156 ms
    Ms4_156,
    /// 8.244 ms
    Ms8_244,
}

impl Default for ConversionTime {
    fn default() -> (r: Self)
        ensures
            r == ConversionTime::Ms1_1,
    {
        ConversionTime::Ms1_1
    }
}

impl ConversionTime {
    /// The conversion time's three-bit code.
    pub open spec fn spec_into_u8(time: ConversionTime) -> u8 {
        match time {
            ConversionTime::Us140 => 0b000,
            ConversionTime::Us204 => 0b001,
            ConversionTime::Us332 => 0b010,
            ConversionTime::Us588 => 0b011,
            ConversionTime::Ms1_1 => 0b100,
            ConversionTime::Ms2_116 => 0b101,
            ConversionTime::Ms4_156 => 0b110,
            ConversionTime::Ms8_244 => 0b111,
        }
    }

    /// The conversion time of the three low bits of `value`.
    pub open spec fn spec_from_u8(value: u8) -> ConversionTime {
        let code = value % 8;
        if code == 0 {
            ConversionTime::Us140
        } else if code == 1 {
            ConversionTime::Us204
        } else if code == 2 {
            ConversionTime::Us332
        } else if code == 3 {
            ConversionTime::Us588
        } else if code == 4 {
            ConversionTime::Ms1_1
        } else if code == 5 {
            ConversionTime::Ms2_116
        } else if code == 6 {
            ConversionTime::Ms4_156
        } else {
            ConversionTime::Ms8_244
        }
    }

    /// The conversion time of the three low bits of `value`.
    pub fn from_u8(value: u8) -> (r: ConversionTime)
        ensures
            r == ConversionTime::spec_from_u8(value),
    {
        proof {
            lemma_low3(value);
        }
        match value & 0b111 {
            0b000 => ConversionTime::Us140,
            0b001 => ConversionTime::Us204,
            0b010 => ConversionTime::Us332,
            0b011 => ConversionTime::Us588,
            0b100 => ConversionTime::Ms1_1,
            0b101 => ConversionTime::Ms2_116,
            0b110 => ConversionTime::Ms4_156,
            _ => ConversionTime::Ms8_244,
        }
    }

    /// The conversion time's three-bit code.
    pub fn into_u8(time: ConversionTime) -> (r: u8)
        ensures
            r == ConversionTime::spec_into_u8(time),
            r < 8,
    {
        let code: u8 = match time {
            ConversionTime::Us140 => 0b000,
            ConversionTime::Us204 => 0b001,
            ConversionTime::Us332 => 0b010,
            ConversionTime::Us588 => 0b011,
            ConversionTime::Ms1_1 => 0b100,
            ConversionTime::Ms2_116 => 0b101,
            ConversionTime::Ms4_156 => 0b110,
            ConversionTime::Ms8_244 => 0b111,
        };
        proof {
            lemma_low3(code);
        }
        code & 0b111
    }
}

/// The nominal conversion time, in microseconds.
pub open spec fn conversion_us(time: ConversionTime) -> int {
    match time {
        ConversionTime::Us140 => 140,
        ConversionTime::Us204 => 204,
        ConversionTime::Us332 => 332,
        ConversionTime::Us588 => 588,
        ConversionTime::Ms1_1 => 1100,
        ConversionTime::Ms2_116 => 2116,
        ConversionTime::Ms4_156 => 4156,
        ConversionTime::Ms8_244 => 8244,
    }
}

/// The conversion-time codes follow the times: a longer conversion has a larger
/// three-bit code, so the eight times take the codes 0 to 7 from the shortest to
/// the longest; and decoding the three low bits of any byte gives back the time
/// with that code.
pub proof fn lemma_conversion_time_codes()
    ensures
        forall|a: ConversionTime, b: ConversionTime|
            #[trigger] conversion_us(a) < #[trigger] conversion_us(b) <==> ConversionTime::spec_into_u8(a)
                < ConversionTime::spec_into_u8(b),
        forall|a: ConversionTime| #[trigger] ConversionTime::spec_into_u8(a) < 8,
        forall|v: u8|
            #[trigger] ConversionTime::spec_into_u8(ConversionTime::spec_from_u8(v)) == v % 8,
{
}

/// Number of samples that each reported value averages.
#[derive(Copy, Clone, Debug, PartialEq, Eq, Structural)]
pub enum Averages {
    /// 1 sample
    Avg1,
    /// 4 samples
    Avg4,
    /// 16 samples
    Avg16,
    /// 64 samples
    Avg64,
    /// 128 samples
    Avg128,
    /// 256 samples
    Avg256,
    /// 512 samples
    Avg512,
    /// 1024 samples
    Avg1024,
}

/// The number of samples that `averages` averages.
pub open spec fn sample_count(averages: Averages) -> int {
    match averages {
        Averages::Avg1 => 1,
        Averages::Avg4 => 4,
        Averages::Avg16 => 16,
        Averages::Avg64 => 64,
        Averages::Avg128 => 128,
        Averages::Avg256 => 256,
        Averages::Avg512 => 512,
        Averages::Avg1024 => 1024,
    }
}

/// The averaging codes follow the sample counts: averaging more samples has a
/// larger three-bit code, so the eight counts take the codes 0 to 7 from the
/// fewest to the most; and decoding the three low bits of any byte gives back the
/// averaging with that code.
pub proof fn lemma_averaging_codes()
    ensures
        forall|a: Averages, b: Averages|
            #[trigger] sample_count(a) < #[trigger] sample_count(b) <==> Averages::spec_into_u8(a)
                < Averages::spec_into_u8(b),
        forall|a: Averages| #[trigger] Averages::spec_into_u8(a) < 8,
        forall|v: u8| #[trigger] Averages::spec_into_u8(Averages::spec_from_u8(v)) == v % 8,
{
}

impl Default for Averages {
    fn default() -> (r: Self)
        ensures
            r == Averages::Avg1,
    {
        Averages::Avg1
    }
}

impl Averages {
    /// The averaging's three-bit code.
    pub open spec fn spec_into_u8(averages: Averages) -> u8 {
        match averages {
            Averages::Avg1 => 0b000,
            Averages::Avg4 => 0b001,
            Averages::Avg16 => 0b010,
            Averages::Avg64 => 0b011,
            Averages::Avg128 => 0b100,
            Averages::Avg256 => 0b101,
            Averages::Avg512 => 0b110,
            Averages::Avg1024 => 0b111,
        }
    }

    /// The averaging of the three low bits of `value`.
    pub open spec fn spec_from_u8(value: u8) -> Averages {
        let code = value % 8;
        if code == 0 {
            Averages::Avg1
        } else if code == 1 {
            Averages::Avg4
        } else if code == 2 {
            Averages::Avg16
        } else if code == 3 {
            Averages::Avg64
        } else if code == 4 {
            Averages::Avg128
        } else if code == 5 {
            Averages::Avg256
        } else if code == 6 {
            Averages::Avg512
        } else {
            Averages::Avg1024
        }
    }

    /// The averaging of the three low bits of `value`.
    pub fn from_u8(value: u8) -> (r: Averages)
        ensures
            r == Averages::spec_from_u8(value),
    {
        proof {
            lemma_low3(value);
        }
        match value & 0b111 {
            0b000 => Averages::Avg1,
            0b001 => Averages::Avg4,
            0b010 => Averages::Avg16,
            0b011 => Averages::Avg64,
            0b100 => Averages::Avg128,
            0b101 => Averages::Avg256,
            0b110 => Averages::Avg512,
            _ => Averages::Avg1024,
        }
    }

    /// The averaging's three-bit code.
    pub fn into_u8(averages: Averages) -> (r: u8)
        ensures
            r == Averages::spec_into_u8(averages),
            r < 8,
    {
        let code: u8 = match averages {
            Averages::Avg1 => 0b000,
            Averages::Avg4 => 0b001,
            Averages::Avg16 => 0b010,
            Averages::Avg64 => 0b011,
            Averages::Avg128 => 0b100,
            Averages::Avg256 => 0b101,
            Averages::Avg512 => 0b110,
            Averages::Avg1024 => 0b111,
        };
        proof {
            lemma_low3(code);
        }
        code & 0b111
    }
}

/// Decoding a mode's code gives the mode back.
pub proof fn lemma_adc_mode_round_trip(mode: AdcMode)
    ensures
        AdcMode::spec_from_u8(AdcMode::spec_into_u8(mode)) == mode,
{
}

/// Encoding a decoded mode gives back the three low bits, except that the
/// power-down code with bit 2 set comes back as the plain power-down code.
pub proof fn lemma_adc_mode_code_round_trip(value: u8)
    ensures
        AdcMode::spec_into_u8(AdcMode::spec_from_u8(value)) == (if value % 8 == 4 {
            0
        } else {
            value % 8
        }),
{
}

/// Decoding a conversion time's code gives it back, and encoding a decoded
/// code gives back its three low bits.
pub proof fn lemma_conversion_time_round_trip(time: ConversionTime, value: u8)
    ensures
        ConversionTime::spec_from_u8(ConversionTime::spec_into_u8(time)) == time,
        ConversionTime::spec_into_u8(ConversionTime::spec_from_u8(value)) == value % 8,
{
}

/// Decoding an averaging's code gives it back, and encoding a decoded code
/// gives back its three low bits.
pub proof fn lemma_averages_round_trip(averages: Averages, value: u8)
    ensures
        Averages::spec_from_u8(Averages::spec_into_u8(averages)) == averages,
        Averages::spec_into_u8(Averages::spec_from_u8(value)) == value % 8,
{
}


/// The three-bit field of `b` at bit `off` (0, 3, 6 or 9).
pub open spec fn field3(b: u16, off: u16) -> int {
    if off == 0 {
        b as int % 8
    } else if off == 3 {
        (b as int / 8) % 8
    } else if off == 6 {
        (b as int / 64) % 8
    } else {
        (b as int / 512) % 8
    }
}

/// The ADC configuration register: operating mode in bits 0 to 2, shunt conversion
/// time in bits 3 to 5, bus conversion time in bits 6 to 8, averaging in bits 9 to 11,
/// and four read-only bits on top.
#[derive(Copy, Clone, Debug, PartialEq, Eq, Structural)]
pub struct AdcConfig(u16);

impl AdcConfig {
    /// The raw register word.
    pub closed spec fn spec_bits(self) -> u16 {
        self.0
    }

    /// The configuration with the given raw word.
    pub closed spec fn spec_from_bits(bits: u16) -> AdcConfig {
        AdcConfig(bits)
    }

    /// A configuration is its raw word.
    pub proof fn lemma_bits(bits: u16, config: AdcConfig)
        ensures
            #[trigger] AdcConfig::spec_from_bits(bits).spec_bits() == bits,
            AdcConfig::spec_from_bits(config.spec_bits()) == config,
    {
    }

    /// The code of the operating mode.
    pub open spec fn mode_code(self) -> int {
        field3(self.spec_bits(), 0)
    }

    /// The code of the shunt conversion time.
    pub open spec fn vshunt_code(self) -> int {
        field3(self.spec_bits(), 3)
    }

    /// The code of the bus conversion time.
    pub open spec fn vbus_code(self) -> int {
        field3(self.spec_bits(), 6)
    }

    /// The code of the averaging.
    pub open spec fn averaging_code(self) -> int {
        field3(self.spec_bits(), 9)
    }

    /// The four read-only bits on top.
    pub open spec fn rsvd_code(self) -> int {
        self.spec_bits() as int / 4096
    }

    /// The operating mode.
    pub open spec fn spec_mode(self) -> AdcMode {
        AdcMode::spec_from_u8(self.mode_code() as u8)
    }

    /// The shunt conversion time.
    pub open spec fn spec_vshunt_conv_time(self) -> ConversionTime {
        ConversionTime::spec_from_u8(self.vshunt_code() as u8)
    }

    /// The bus conversion time.
    pub open spec fn spec_vbus_conv_time(self) -> ConversionTime {
        ConversionTime::spec_from_u8(self.vbus_code() as u8)
    }

    /// The averaging.
    pub open spec fn spec_averaging(self) -> Averages {
        Averages::spec_from_u8(self.averaging_code() as u8)
    }

    /// The raw word is made of its fields.
    pub proof fn lemma_fields(self)
        ensures
            self.spec_bits() == self.mode_code() + 8 * self.vshunt_code() + 64 * self.vbus_code()
                + 512 * self.averaging_code() + 4096 * self.rsvd_code(),
            0 <= self.rsvd_code() < 16,
    {
        lemma_u16_fields3(self.0);
    }

    fn field(&self, off: u16) -> (r: u8)
        requires
            off == 0 || off == 3 || off == 6 || off == 9,
        ensures
            r == field3(self.spec_bits(), off),
    {
        proof {
            lemma_u16_fields3(self.0);
            if off == 0 {
            } else if off == 3 {
            } else if off == 6 {
            } else {
            }
        }
        ((self.0 >> off) & 7) as u8
    }

    fn with_field(self, off: u16, value: u8) -> (r: AdcConfig)
        requires
            off == 0 || off == 3 || off == 6 || off == 9,
            value < 8,
        ensures
            field3(r.spec_bits(), off) == value,
            forall|o: u16|
                (o == 0 || o == 3 || o == 6 || o == 9) && o != off ==> field3(r.spec_bits(), o)
                    == field3(self.spec_bits(), o),
            r.rsvd_code() == self.rsvd_code(),
    {
        let v: u16 = value as u16;
        let mask: u16 = 7;
        let bits: u16 = self.0 & !(mask << off) | (v & mask) << off;
        proof {
            lemma_u16_set_field3(self.0, off, v);
            lemma_u16_fields3(self.0);
            lemma_u16_fields3(bits);
            assert(field3(bits, off) == value) by {
                if off == 0 {
                } else if off == 3 {
                } else if off == 6 {
                } else {
                }
            }
            assert forall|o: u16|
                (o == 0 || o == 3 || o == 6 || o == 9) && o != off implies field3(bits, o)
                == field3(self.0, o) by {
                assert(((bits >> o) & 7u16) == ((self.0 >> o) & 7u16));
                if o == 0 {
                } else if o == 3 {
                } else if o == 6 {
                } else {
                }
            }
        }
        AdcConfig(bits)
    }

    /// The configuration with the given raw word.
    pub fn from_bits(bits: u16) -> (r: AdcConfig)
        ensures
            r == AdcConfig::spec_from_bits(bits),
            r.spec_bits() == bits,
    {
        AdcConfig(bits)
    }

    /// The raw register word.
    pub fn into_bits(self) -> (r: u16)
        ensures
            r == self.spec_bits(),
    {
        self.0
    }

    /// The operating mode.
    pub fn mode(&self) -> (r: AdcMode)
        ensures
            r == self.spec_mode(),
    {
        AdcMode::from_u8(self.field(0))
    }

    /// This configuration with the operating mode `value`.
    pub fn with_mode(self, value: AdcMode) -> (r: AdcConfig)
        ensures
            r.mode_code() == AdcMode::spec_into_u8(value),
            r.spec_mode() == value,
            r.vshunt_code() == self.vshunt_code(),
            r.vbus_code() == self.vbus_code(),
            r.averaging_code() == self.averaging_code(),
            r.rsvd_code() == self.rsvd_code(),
    {
        proof {
            lemma_adc_mode_round_trip(value);
        }
        self.with_field(0, AdcMode::into_u8(value))
    }

    /// Sets the operating mode to `value`.
    pub fn set_mode(&mut self, value: AdcMode)
        ensures
            final(self).mode_code() == AdcMode::spec_into_u8(value),
            final(self).spec_mode() == value,
            final(self).vshunt_code() == old(self).vshunt_code(),
            final(self).vbus_code() == old(self).vbus_code(),
            final(self).averaging_code() == old(self).averaging_code(),
            final(self).rsvd_code() == old(self).rsvd_code(),
    {
        *self = self.with_mode(value);
    }

    /// The shunt conversion time.
    pub fn vshunt_conv_time(&self) -> (r: ConversionTime)
        ensures
            r == self.spec_vshunt_conv_time(),
    {
        ConversionTime::from_u8(self.field(3))
    }

    /// This configuration with the shunt conversion time `value`.
    pub fn with_vshunt_conv_time(self, value: ConversionTime) -> (r: AdcConfig)
        ensures
            r.vshunt_code() == ConversionTime::spec_into_u8(value),
            r.spec_vshunt_conv_time() == value,
            r.mode_code() == self.mode_code(),
            r.vbus_code() == self.vbus_code(),
            r.averaging_code() == self.averaging_code(),
            r.rsvd_code() == self.rsvd_code(),
    {
        proof {
            lemma_conversion_time_round_trip(value, 0);
        }
        self.with_field(3, ConversionTime::into_u8(value))
    }

    /// Sets the vshunt conv time to `value`.
    pub fn set_vshunt_conv_time(&mut self, value: ConversionTime)
        ensures
            final(self).vshunt_code() == ConversionTime::spec_into_u8(value),
            final(self).spec_vshunt_conv_time() == value,
            final(self).mode_code() == old(self).mode_code(),
            final(self).vbus_code() == old(self).vbus_code(),
            final(self).averaging_code() == old(self).averaging_code(),
            final(self).rsvd_code() == old(self).rsvd_code(),
    {
        *self = self.with_vshunt_conv_time(value);
    }

    /// The bus conversion time.
    pub fn vbus_conv_time(&self) -> (r: ConversionTime)
        ensures
            r == self.spec_vbus_conv_time(),
    {
        ConversionTime::from_u8(self.field(6))
    }

    /// This configuration with the bus conversion time `value`.
    pub fn with_vbus_conv_time(self, value: ConversionTime) -> (r: AdcConfig)
        ensures
            r.vbus_code() == ConversionTime::spec_into_u8(value),
            r.spec_vbus_conv_time() == value,
            r.mode_code() == self.mode_code(),
            r.vshunt_code() == self.vshunt_code(),
            r.averaging_code() == self.averaging_code(),
            r.rsvd_code() == self.rsvd_code(),
    {
        proof {
            lemma_conversion_time_round_trip(value, 0);
        }
        self.with_field(6, ConversionTime::into_u8(value))
    }

    /// Sets the vbus conv time to `value`.
    pub fn set_vbus_conv_time(&mut self, value: ConversionTime)
        ensures
            final(self).vbus_code() == ConversionTime::spec_into_u8(value),
            final(self).spec_vbus_conv_time() == value,
            final(self).mode_code() == old(self).mode_code(),
            final(self).vshunt_code() == old(self).vshunt_code(),
            final(self).averaging_code() == old(self).averaging_code(),
            final(self).rsvd_code() == old(self).rsvd_code(),
    {
        *self = self.with_vbus_conv_time(value);
    }

    /// The averaging.
    pub fn averaging(&self) -> (r: Averages)
        ensures
            r == self.spec_averaging(),
    {
        Averages::from_u8(self.field(9))
    }

    /// This configuration with the averaging `value`.
    pub fn with_averaging(self, value: Averages) -> (r: AdcConfig)
        ensures
            r.averaging_code() == Averages::spec_into_u8(value),
            r.spec_averaging() == value,
            r.mode_code() == self.mode_code(),
            r.vshunt_code() == self.vshunt_code(),
            r.vbus_code() == self.vbus_code(),
            r.rsvd_code() == self.rsvd_code(),
    {
        proof {
            lemma_averages_round_trip(value, 0);
        }
        self.with_field(9, Averages::into_u8(value))
    }

    /// Sets the averaging to `value`.
    pub fn set_averaging(&mut self, value: Averages)
        ensures
            final(self).averaging_code() == Averages::spec_into_u8(value),
            final(self).spec_averaging() == value,
            final(self).mode_code() == old(self).mode_code(),
            final(self).vshunt_code() == old(self).vshunt_code(),
            final(self).vbus_code() == old(self).vbus_code(),
            final(self).rsvd_code() == old(self).rsvd_code(),
    {
        *self = self.with_averaging(value);
    }
}


/// Conversion between a register and the little-endian bytes it travels as.
pub trait ConvertRaw<const N: usize>: Sized {
    /// The register with the given raw bytes.
    fn from_raw(raw: [u8; N]) -> Self;

    /// The raw bytes of the register.
    fn to_raw(&self) -> [u8; N];
}

/// A register of the device, with the command code that addresses it.
pub trait Register<T> {
    /// The command code of the register.
    fn address() -> u8;
}

impl AdcConfig {
    /// The configuration that every field starts from: each field's code is zero
    /// (power-down, 140 µs conversion times, no averaging), and the read-only bits
    /// hold 0b0100.
    pub open spec fn spec_default() -> AdcConfig {
        AdcConfig::spec_from_bits(0x4000)
    }

    /// A configuration with every field at its starting value.
    pub fn new() -> (r: AdcConfig)
        ensures
            r == AdcConfig::spec_default(),
            r.spec_bits() == 0x4000,
            r.spec_mode() == AdcMode::PowerDown,
            r.spec_vshunt_conv_time() == ConversionTime::Us140,
            r.spec_vbus_conv_time() == ConversionTime::Us140,
            r.spec_averaging() == Averages::Avg1,
            r.rsvd_code() == 0b0100,
    {
        let this = AdcConfig(0x4000);
        proof {
            this.lemma_fields();
        }
        this
    }
}

impl Default for AdcConfig {
    fn default() -> (r: AdcConfig)
        ensures
            r == AdcConfig::spec_default(),
            r.spec_bits() == 0x4000,
            r.spec_mode() == AdcMode::PowerDown,
            r.spec_vshunt_conv_time() == ConversionTime::Us140,
            r.spec_vbus_conv_time() == ConversionTime::Us140,
            r.spec_averaging() == Averages::Avg1,
            r.rsvd_code() == 0b0100,
    {
        AdcConfig::new()
    }
}

impl From<u16> for AdcConfig {
    fn from(bits: u16) -> (r: AdcConfig) {
        AdcConfig(bits)
    }
}

impl vstd::std_specs::convert::FromSpecImpl<u16> for AdcConfig {
    open spec fn obeys_from_spec() -> bool {
        true
    }

    open spec fn from_spec(bits: u16) -> AdcConfig {
        AdcConfig::spec_from_bits(bits)
    }
}

impl From<AdcConfig> for u16 {
    fn from(config: AdcConfig) -> (r: u16) {
        config.0
    }
}

impl vstd::std_specs::convert::FromSpecImpl<AdcConfig> for u16 {
    open spec fn obeys_from_spec() -> bool {
        true
    }

    open spec fn from_spec(config: AdcConfig) -> u16 {
        config.spec_bits()
    }
}

impl ConvertRaw<2> for AdcConfig {
    fn from_raw(raw: [u8; 2]) -> (r: AdcConfig)
        ensures
            r.spec_bits() == le_value(raw@),
    {
        AdcConfig(u16_from_le_bytes(raw))
    }

    fn to_raw(&self) -> (r: [u8; 2])
        ensures
            le_value(r@) == self.spec_bits(),
            r[0] == self.spec_bits() % 256,
            r[1] == self.spec_bits() / 256,
    {
        u16_to_le_bytes(self.0)
    }
}

impl Register<u16> for AdcConfig {
    fn address() -> (r: u8)
        ensures
            r == 0xd0,
    {
        0xd0
    }
}


/// The bus voltage register, in steps of 1.25 mV.
#[derive(Copy, Clone, Debug, PartialEq, Eq, Structural)]
pub struct LoadVoltage(pub i16);

impl From<i16> for LoadVoltage {
    fn from(value: i16) -> (r: LoadVoltage) {
        Self(value)
    }
}

impl vstd::std_specs::convert::FromSpecImpl<i16> for LoadVoltage {
    open spec fn obeys_from_spec() -> bool {
        true
    }

    open spec fn from_spec(value: i16) -> LoadVoltage {
        LoadVoltage(value)
    }
}

impl ConvertRaw<2> for LoadVoltage {
    fn from_raw(raw: [u8; 2]) -> (r: LoadVoltage)
        ensures
            r.0 == le_value(raw@) as i16,
    {
        Self::from(u16_from_le_bytes(raw) as i16)
    }

    fn to_raw(&self) -> (r: [u8; 2])
        ensures
            le_value(r@) == self.0 as u16,
            r[0] == (self.0 as u16) % 256,
            r[1] == (self.0 as u16) / 256,
    {
        u16_to_le_bytes(self.0 as u16)
    }
}

impl Register<i16> for LoadVoltage {
    fn address() -> (r: u8)
        ensures
            r == 0x88,
    {
        0x88
    }
}

/// The shunt voltage register, in steps of 2.5 µV.
#[derive(Copy, Clone, Debug, PartialEq, Eq, Structural)]
pub struct ShuntVoltage(pub i16);

impl From<i16> for ShuntVoltage {
    fn from(value: i16) -> (r: ShuntVoltage) {
        Self(value)
    }
}

impl vstd::std_specs::convert::FromSpecImpl<i16> for ShuntVoltage {
    open spec fn obeys_from_spec() -> bool {
        true
    }

    open spec fn from_spec(value: i16) -> ShuntVoltage {
        ShuntVoltage(value)
    }
}

impl ConvertRaw<2> for ShuntVoltage {
    fn from_raw(raw: [u8; 2]) -> (r: ShuntVoltage)
        ensures
            r.0 == le_value(raw@) as i16,
    {
        Self::from(u16_from_le_bytes(raw) as i16)
    }

    fn to_raw(&self) -> (r: [u8; 2])
        ensures
            le_value(r@) == self.0 as u16,
            r[0] == (self.0 as u16) % 256,
            r[1] == (self.0 as u16) / 256,
    {
        u16_to_le_bytes(self.0 as u16)
    }
}

impl Register<i16> for ShuntVoltage {
    fn address() -> (r: u8)
        ensures
            r == 0xd1,
    {
        0xd1
    }
}

/// The current register, in steps of the current LSB.
#[derive(Copy, Clone, Debug, PartialEq, Eq, Structural)]
pub struct LoadCurrent(pub i16);

impl From<i16> for LoadCurrent {
    fn from(value: i16) -> (r: LoadCurrent) {
        Self(value)
    }
}

impl vstd::std_specs::convert::FromSpecImpl<i16> for LoadCurrent {
    open spec fn obeys_from_spec() -> bool {
        true
    }

    open spec fn from_spec(value: i16) -> LoadCurrent {
        LoadCurrent(value)
    }
}

impl ConvertRaw<2> for LoadCurrent {
    fn from_raw(raw: [u8; 2]) -> (r: LoadCurrent)
        ensures
            r.0 == le_value(raw@) as i16,
    {
        Self::from(u16_from_le_bytes(raw) as i16)
    }

    fn to_raw(&self) -> (r: [u8; 2])
        ensures
            le_value(r@) == self.0 as u16,
            r[0] == (self.0 as u16) % 256,
            r[1] == (self.0 as u16) / 256,
    {
        u16_to_le_bytes(self.0 as u16)
    }
}

impl Register<i16> for LoadCurrent {
    fn address() -> (r: u8)
        ensures
            r == 0x89,
    {
        0x89
    }
}

/// The power register, in steps of 25 times the current LSB.
#[derive(Copy, Clone, Debug, PartialEq, Eq, Structural)]
pub struct LoadPower(pub u16);

impl From<u16> for LoadPower {
    fn from(value: u16) -> (r: LoadPower) {
        Self(value)
    }
}

impl vstd::std_specs::convert::FromSpecImpl<u16> for LoadPower {
    open spec fn obeys_from_spec() -> bool {
        true
    }

    open spec fn from_spec(value: u16) -> LoadPower {
        LoadPower(value)
    }
}

impl ConvertRaw<2> for LoadPower {
    fn from_raw(raw: [u8; 2]) -> (r: LoadPower)
        ensures
            r.0 == le_value(raw@),
    {
        Self::from(u16_from_le_bytes(raw))
    }

    fn to_raw(&self) -> (r: [u8; 2])
        ensures
            le_value(r@) == self.0,
            r[0] == self.0 % 256,
            r[1] == self.0 / 256,
    {
        u16_to_le_bytes(self.0)
    }
}

impl Register<u16> for LoadPower {
    fn address() -> (r: u8)
        ensures
            r == 0x97,
    {
        0x97
    }
}


/// The six low bytes of `bits`, least significant first.
pub open spec fn spec_from_bits_u64(bits: u64) -> Seq<u8> {
    Seq::new(6, |i: int| ((bits as nat / pow256(i as nat)) % 256) as u8)
}

/// The six bytes of a model string, least significant first.
pub fn from_bits_u64(bits: u64) -> (r: [u8; 6])
    ensures
        r@ == spec_from_bits_u64(bits),
{
    let bytes = u64_to_le_bytes(bits);
    let r = [bytes[0], bytes[1], bytes[2], bytes[3], bytes[4], bytes[5]];
    assert(r@ =~= spec_from_bits_u64(bits));
    r
}

/// The number whose six low bytes, least significant first, are `model`.
pub fn to_bits_u64(model: [u8; 6]) -> (r: u64)
    ensures
        r == le_value(model@),
{
    let raw = [model[0], model[1], model[2], model[3], model[4], model[5], 0, 0];
    let r = u64_from_le_bytes(raw);
    proof {
        reveal_with_fuel(le_value, 9);
        assert(raw@.drop_first().drop_first().drop_first().drop_first().drop_first().drop_first().drop_first().drop_first()
            =~= Seq::<u8>::empty());
        assert(model@.drop_first().drop_first().drop_first().drop_first().drop_first().drop_first()
            =~= Seq::<u8>::empty());
    }
    r
}

/// The two bytes of a 16-bit word, least significant first.
pub fn from_bits_u16(bits: u16) -> (r: [u8; 2])
    ensures
        r[0] == bits % 256,
        r[1] == bits / 256,
{
    u16_to_le_bytes(bits)
}

/// The 16-bit word whose bytes, least significant first, are `bytes`.
pub fn to_bits_u16(bytes: [u8; 2]) -> (r: u16)
    ensures
        r == bytes[0] + 256 * bytes[1],
{
    u16_from_le_bytes(bytes)
}

/// Splitting a word into bytes and joining them again gives the word back.
pub proof fn lemma_bits_u16_round_trip(bits: u16, bytes: [u8; 2])
    ensures
        (bits % 256) + 256 * (bits / 256) == bits,
        (((bytes[0] + 256 * bytes[1]) as u16) % 256) == bytes[0],
        (((bytes[0] + 256 * bytes[1]) as u16) / 256) == bytes[1],
{
}

/// Joining six bytes and splitting the result gives the bytes back; splitting a
/// number and joining its bytes gives back its 48 low bits.
pub proof fn lemma_bits_u64_round_trip(bits: u64, model: Seq<u8>)
    requires
        model.len() == 6,
    ensures
        spec_from_bits_u64(le_value(model) as u64) == model,
        le_value(spec_from_bits_u64(bits)) == bits as nat % 0x1000000000000,
{
    reveal_with_fuel(le_value, 7);
    reveal_with_fuel(pow256, 7);
    let m0 = model[0];
    let m1 = model[1];
    let m2 = model[2];
    let m3 = model[3];
    let m4 = model[4];
    let m5 = model[5];
    assert(model.drop_first().drop_first().drop_first().drop_first().drop_first().drop_first()
        =~= Seq::<u8>::empty());
    let v: u64 = (m0 + 256 * (m1 + 256 * (m2 + 256 * (m3 + 256 * (m4 + 256 * m5))))) as u64;
    assert(v == (m0 + 256 * (m1 + 256 * (m2 + 256 * (m3 + 256 * (m4 + 256 * m5))))) as u64 ==> v
        == m0 + 256 * (m1 + 256 * (m2 + 256 * (m3 + 256 * (m4 + 256 * m5)))) && v % 256 == m0 && (v
        / 0x100) % 256 == m1 && (v / 0x10000) % 256 == m2 && (v / 0x1000000) % 256 == m3 && (v
        / 0x100000000) % 256 == m4 && (v / 0x10000000000) % 256 == m5) by (bit_vector);
    assert(spec_from_bits_u64(v) =~= model);
    let s = spec_from_bits_u64(bits);
    assert(s.drop_first().drop_first().drop_first().drop_first().drop_first().drop_first()
        =~= Seq::<u8>::empty());
    assert(bits % 256 + 256 * ((bits / 0x100) % 256 + 256 * ((bits / 0x10000) % 256 + 256 * ((bits
        / 0x1000000) % 256 + 256 * ((bits / 0x100000000) % 256 + 256 * ((bits / 0x10000000000)
        % 256))))) == bits % 0x1000000000000) by (bit_vector);
}


/// Bytes 1 and 2 of a 32-bit word, the less significant first.
pub open spec fn mid_bytes_of(b: u32) -> Seq<u8> {
    seq![((b / 256) % 256) as u8, ((b / 65536) % 256) as u8]
}

fn mid_bytes(b: u32) -> (r: [u8; 2])
    ensures
        r[0] == (b / 256) % 256,
        r[1] == (b / 65536) % 256,
{
    assert(((b >> 8u32) & 0xffffu32) as u16 % 256 == (b / 256) % 256 && ((b >> 8u32) & 0xffffu32) as u16
        / 256 == (b / 65536) % 256) by (bit_vector);
    from_bits_u16(((b >> 8) & 0xffff) as u16)
}

fn with_mid_bytes(b: u32, value: [u8; 2]) -> (r: u32)
    ensures
        r == b % 256 + 256 * (value[0] + 256 * value[1]) + 16777216 * (b / 16777216),
        (r / 256) % 256 == value[0],
        (r / 65536) % 256 == value[1],
{
    let v: u32 = to_bits_u16(value) as u32;
    let mask: u32 = 0xffff;
    assert(v < 65536 ==> (b & !(mask << 8u32) | (v & mask) << 8u32) == b % 256 + 256 * v + 16777216 * (b
        / 16777216)) by (bit_vector)
        requires
            mask == 0xffff,
    ;
    let r: u32 = b & !(mask << 8) | (v & mask) << 8;
    assert((r / 256) % 256 == value[0] && (r / 65536) % 256 == value[1]) by (nonlinear_arith)
        requires
            r == b % 256 + 256 * (value[0] + 256 * value[1]) + 16777216 * (b / 16777216),
            value[0] < 256,
            value[1] < 256,
            b % 256 < 256,
    ;
    r
}

/// The manufacturer identification register: a two-character block.
///
/// Bits 0 to 7 hold the byte count of the block read, bits 8 to 23 the two
/// characters, and bits 24 to 31 are reserved.
#[derive(Copy, Clone, Debug, PartialEq, Eq, Structural)]
pub struct MfrId(u32);

impl MfrId {
    /// The raw register word.
    pub closed spec fn spec_bits(self) -> u32 {
        self.0
    }

    /// The register with the given raw word.
    pub closed spec fn spec_from_bits(bits: u32) -> MfrId {
        MfrId(bits)
    }

    /// A register is its raw word.
    pub proof fn lemma_bits(bits: u32, reg: MfrId)
        ensures
            #[trigger] MfrId::spec_from_bits(bits).spec_bits() == bits,
            MfrId::spec_from_bits(reg.spec_bits()) == reg,
    {
    }

    /// The two characters, first character first.
    pub open spec fn spec_id(self) -> Seq<u8> {
        mid_bytes_of(self.spec_bits())
    }

    /// The register with every field at its default: a byte count of 2, the
    /// characters "TI", and the reserved bits clear.
    pub fn new() -> (r: MfrId)
        ensures
            r.spec_bits() == 2 + 256 * (0x54 + 256 * 0x49),
            r.spec_id() == seq![0x54u8, 0x49u8],
    {
        MfrId(2).with_id([0x54, 0x49])
    }

    /// The register with the given raw word.
    pub fn from_bits(bits: u32) -> (r: MfrId)
        ensures
            r.spec_bits() == bits,
    {
        MfrId(bits)
    }

    /// The raw register word.
    pub fn into_bits(self) -> (r: u32)
        ensures
            r == self.spec_bits(),
    {
        self.0
    }

    /// The two characters, first character first.
    pub fn id(&self) -> (r: [u8; 2])
        ensures
            r@ == self.spec_id(),
    {
        let r = mid_bytes(self.0);
        assert(r@ =~= self.spec_id());
        r
    }

    /// This register with the characters `value`.
    pub fn with_id(self, value: [u8; 2]) -> (r: MfrId)
        ensures
            r.spec_bits() == self.spec_bits() % 256 + 256 * (value[0] + 256 * value[1]) + 16777216
                * (self.spec_bits() / 16777216),
            r.spec_id() == value@,
    {
        let r = MfrId(with_mid_bytes(self.0, value));
        assert(r.spec_id() =~= value@);
        r
    }

    /// Sets the characters to `value`.
    pub fn set_id(&mut self, value: [u8; 2])
        ensures
            final(self).spec_bits() == old(self).spec_bits() % 256 + 256 * (value[0] + 256
                * value[1]) + 16777216 * (old(self).spec_bits() / 16777216),
            final(self).spec_id() == value@,
    {
        *self = self.with_id(value);
    }
}

impl Default for MfrId {
    fn default() -> (r: MfrId)
        ensures
            r.spec_bits() == 2 + 256 * (0x54 + 256 * 0x49),
    {
        MfrId::new()
    }
}

impl From<u32> for MfrId {
    fn from(bits: u32) -> (r: MfrId) {
        MfrId(bits)
    }
}

impl vstd::std_specs::convert::FromSpecImpl<u32> for MfrId {
    open spec fn obeys_from_spec() -> bool {
        true
    }

    open spec fn from_spec(bits: u32) -> MfrId {
        MfrId::spec_from_bits(bits)
    }
}

impl From<MfrId> for u32 {
    fn from(reg: MfrId) -> (r: u32) {
        reg.0
    }
}

impl vstd::std_specs::convert::FromSpecImpl<MfrId> for u32 {
    open spec fn obeys_from_spec() -> bool {
        true
    }

    open spec fn from_spec(reg: MfrId) -> u32 {
        reg.spec_bits()
    }
}

impl ConvertRaw<4> for MfrId {
    fn from_raw(raw: [u8; 4]) -> (r: MfrId)
        ensures
            r.spec_bits() == le_value(raw@),
            r.spec_id() == raw@.subrange(1, 3),
    {
        let r = MfrId(u32_from_le_bytes(raw));
        assert(r.spec_id() =~= raw@.subrange(1, 3));
        r
    }

    fn to_raw(&self) -> (r: [u8; 4])
        ensures
            le_value(r@) == self.spec_bits(),
            r@.subrange(1, 3) == self.spec_id(),
    {
        let r = u32_to_le_bytes(self.0);
        assert(r@.subrange(1, 3) =~= self.spec_id());
        r
    }
}

impl Register<u32> for MfrId {
    fn address() -> (r: u8)
        ensures
            r == 0x99,
    {
        0x99
    }
}

/// The manufacturer revision register: a two-character block.
///
/// Bits 0 to 7 hold the byte count of the block read, bits 8 to 23 the two
/// characters, and bits 24 to 31 are reserved.
#[derive(Copy, Clone, Debug, PartialEq, Eq, Structural)]
pub struct MfrRevision(u32);

impl MfrRevision {
    /// The raw register word.
    pub closed spec fn spec_bits(self) -> u32 {
        self.0
    }

    /// The register with the given raw word.
    pub closed spec fn spec_from_bits(bits: u32) -> MfrRevision {
        MfrRevision(bits)
    }

    /// A register is its raw word.
    pub proof fn lemma_bits(bits: u32, reg: MfrRevision)
        ensures
            #[trigger] MfrRevision::spec_from_bits(bits).spec_bits() == bits,
            MfrRevision::spec_from_bits(reg.spec_bits()) == reg,
    {
    }

    /// The two characters, first character first.
    pub open spec fn spec_revision(self) -> Seq<u8> {
        mid_bytes_of(self.spec_bits())
    }

    /// The register with every field at its default: a byte count of 2, the
    /// characters "A0", and the reserved bits clear.
    pub fn new() -> (r: MfrRevision)
        ensures
            r.spec_bits() == 2 + 256 * (0x41 + 256 * 0x30),
            r.spec_revision() == seq![0x41u8, 0x30u8],
    {
        MfrRevision(2).with_revision([0x41, 0x30])
    }

    /// The register with the given raw word.
    pub fn from_bits(bits: u32) -> (r: MfrRevision)
        ensures
            r.spec_bits() == bits,
    {
        MfrRevision(bits)
    }

    /// The raw register word.
    pub fn into_bits(self) -> (r: u32)
        ensures
            r == self.spec_bits(),
    {
        self.0
    }

    /// The two characters, first character first.
    pub fn revision(&self) -> (r: [u8; 2])
        ensures
            r@ == self.spec_revision(),
    {
        let r = mid_bytes(self.0);
        assert(r@ =~= self.spec_revision());
        r
    }

    /// This register with the characters `value`.
    pub fn with_revision(self, value: [u8; 2]) -> (r: MfrRevision)
        ensures
            r.spec_bits() == self.spec_bits() % 256 + 256 * (value[0] + 256 * value[1]) + 16777216
                * (self.spec_bits() / 16777216),
            r.spec_revision() == value@,
    {
        let r = MfrRevision(with_mid_bytes(self.0, value));
        assert(r.spec_revision() =~= value@);
        r
    }

    /// Sets the characters to `value`.
    pub fn set_revision(&mut self, value: [u8; 2])
        ensures
            final(self).spec_bits() == old(self).spec_bits() % 256 + 256 * (value[0] + 256
                * value[1]) + 16777216 * (old(self).spec_bits() / 16777216),
            final(self).spec_revision() == value@,
    {
        *self = self.with_revision(value);
    }
}

impl Default for MfrRevision {
    fn default() -> (r: MfrRevision)
        ensures
            r.spec_bits() == 2 + 256 * (0x41 + 256 * 0x30),
    {
        MfrRevision::new()
    }
}

impl From<u32> for MfrRevision {
    fn from(bits: u32) -> (r: MfrRevision) {
        MfrRevision(bits)
    }
}

impl vstd::std_specs::convert::FromSpecImpl<u32> for MfrRevision {
    open spec fn obeys_from_spec() -> bool {
        true
    }

    open spec fn from_spec(bits: u32) -> MfrRevision {
        MfrRevision::spec_from_bits(bits)
    }
}

impl From<MfrRevision> for u32 {
    fn from(reg: MfrRevision) -> (r: u32) {
        reg.0
    }
}

impl vstd::std_specs::convert::FromSpecImpl<MfrRevision> for u32 {
    open spec fn obeys_from_spec() -> bool {
        true
    }

    open spec fn from_spec(reg: MfrRevision) -> u32 {
        reg.spec_bits()
    }
}

impl ConvertRaw<4> for MfrRevision {
    fn from_raw(raw: [u8; 4]) -> (r: MfrRevision)
        ensures
            r.spec_bits() == le_value(raw@),
            r.spec_revision() == raw@.subrange(1, 3),
    {
        let r = MfrRevision(u32_from_le_bytes(raw));
        assert(r.spec_revision() =~= raw@.subrange(1, 3));
        r
    }

    fn to_raw(&self) -> (r: [u8; 4])
        ensures
            le_value(r@) == self.spec_bits(),
            r@.subrange(1, 3) == self.spec_revision(),
    {
        let r = u32_to_le_bytes(self.0);
        assert(r@.subrange(1, 3) =~= self.spec_revision());
        r
    }
}

impl Register<u32> for MfrRevision {
    fn address() -> (r: u8)
        ensures
            r == 0x9b,
    {
        0x9b
    }
}


/// The manufacturer model register: a six-character block.
///
/// Bits 0 to 7 hold the byte count of the block read, bits 8 to 55 the six
/// characters, and bits 56 to 63 are reserved.
#[derive(Copy, Clone, Debug, PartialEq, Eq, Structural)]
pub struct MfrModel(u64);

impl MfrModel {
    /// The raw register word.
    pub closed spec fn spec_bits(self) -> u64 {
        self.0
    }

    /// The register with the given raw word.
    pub closed spec fn spec_from_bits(bits: u64) -> MfrModel {
        MfrModel(bits)
    }

    /// A register is its raw word.
    pub proof fn lemma_bits(bits: u64, reg: MfrModel)
        ensures
            #[trigger] MfrModel::spec_from_bits(bits).spec_bits() == bits,
            MfrModel::spec_from_bits(reg.spec_bits()) == reg,
    {
    }

    /// The byte count of the block.
    pub open spec fn spec_bytes(self) -> u8 {
        (self.spec_bits() % 256) as u8
    }

    /// The six characters, first character first.
    pub open spec fn spec_model(self) -> Seq<u8> {
        spec_from_bits_u64(((self.spec_bits() / 256) % 0x1000000000000) as u64)
    }

    /// The register with every field at its default: a byte count of 6, the
    /// characters "INA233", and the reserved bits clear.
    pub fn new() -> (r: MfrModel)
        ensures
            r.spec_bytes() == 6,
            r.spec_model() == seq![0x49u8, 0x4e, 0x41, 0x32, 0x33, 0x33],
            r.spec_bits() / 0x100000000000000 == 0,
    {
        MfrModel(0).with_bytes(6).with_model([0x49, 0x4e, 0x41, 0x32, 0x33, 0x33])
    }

    /// The register with the given raw word.
    pub fn from_bits(bits: u64) -> (r: MfrModel)
        ensures
            r.spec_bits() == bits,
    {
        MfrModel(bits)
    }

    /// The raw register word.
    pub fn into_bits(self) -> (r: u64)
        ensures
            r == self.spec_bits(),
    {
        self.0
    }

    /// The byte count of the block.
    pub fn bytes(&self) -> (r: u8)
        ensures
            r == self.spec_bytes(),
    {
        let b: u64 = self.0;
        assert((b & 0xffu64) as u8 == b % 256) by (bit_vector);
        (self.0 & 0xff) as u8
    }

    /// This register with the byte count `value`.
    pub fn with_bytes(self, value: u8) -> (r: MfrModel)
        ensures
            r.spec_bytes() == value,
            r.spec_model() == self.spec_model(),
            r.spec_bits() / 0x100000000000000 == self.spec_bits() / 0x100000000000000,
    {
        let b: u64 = self.0;
        let v: u64 = value as u64;
        let mask: u64 = 0xff;
        assert(v < 256 ==> (b & !(mask << 0u64) | (v & mask) << 0u64) % 256 == v && ((b & !(mask
            << 0u64) | (v & mask) << 0u64) / 256) == b / 256) by (bit_vector)
            requires
                mask == 0xff,
        ;
        MfrModel(b & !(mask << 0) | (v & mask) << 0)
    }

    /// Sets the byte count to `value`.
    pub fn set_bytes(&mut self, value: u8)
        ensures
            final(self).spec_bytes() == value,
            final(self).spec_model() == old(self).spec_model(),
            final(self).spec_bits() / 0x100000000000000 == old(self).spec_bits() / 0x100000000000000,
    {
        *self = self.with_bytes(value);
    }

    /// The six characters, first character first.
    pub fn model(&self) -> (r: [u8; 6])
        ensures
            r@ == self.spec_model(),
    {
        let b: u64 = self.0;
        assert((b >> 8u64) & 0xffffffffffffu64 == (b / 256) % 0x1000000000000) by (bit_vector);
        from_bits_u64((self.0 >> 8) & 0xffff_ffff_ffff)
    }

    /// This register with the characters `value`.
    pub fn with_model(self, value: [u8; 6]) -> (r: MfrModel)
        ensures
            r.spec_model() == value@,
            r.spec_bytes() == self.spec_bytes(),
            r.spec_bits() / 0x100000000000000 == self.spec_bits() / 0x100000000000000,
    {
        let b: u64 = self.0;
        let v: u64 = to_bits_u64(value);
        proof {
            reveal_with_fuel(le_value, 7);
            assert(value@.drop_first().drop_first().drop_first().drop_first().drop_first().drop_first()
                =~= Seq::<u8>::empty());
            lemma_bits_u64_round_trip(0, value@);
        }
        let mask: u64 = 0xffff_ffff_ffff;
        assert(v < 0x1000000000000 ==> ((b & !(mask << 8u64) | (v & mask) << 8u64) / 256)
            % 0x1000000000000 == v && (b & !(mask << 8u64) | (v & mask) << 8u64) % 256 == b % 256
            && (b & !(mask << 8u64) | (v & mask) << 8u64) / 0x100000000000000 == b
            / 0x100000000000000) by (bit_vector)
            requires
                mask == 0xffffffffffff,
        ;
        MfrModel(b & !(mask << 8) | (v & mask) << 8)
    }

    /// Sets the characters to `value`.
    pub fn set_model(&mut self, value: [u8; 6])
        ensures
            final(self).spec_model() == value@,
            final(self).spec_bytes() == old(self).spec_bytes(),
            final(self).spec_bits() / 0x100000000000000 == old(self).spec_bits() / 0x100000000000000,
    {
        *self = self.with_model(value);
    }
}

impl Default for MfrModel {
    fn default() -> (r: MfrModel)
        ensures
            r.spec_bytes() == 6,
            r.spec_model() == seq![0x49u8, 0x4e, 0x41, 0x32, 0x33, 0x33],
    {
        MfrModel::new()
    }
}

impl From<u64> for MfrModel {
    fn from(bits: u64) -> (r: MfrModel) {
        MfrModel(bits)
    }
}

impl vstd::std_specs::convert::FromSpecImpl<u64> for MfrModel {
    open spec fn obeys_from_spec() -> bool {
        true
    }

    open spec fn from_spec(bits: u64) -> MfrModel {
        MfrModel::spec_from_bits(bits)
    }
}

impl From<MfrModel> for u64 {
    fn from(reg: MfrModel) -> (r: u64) {
        reg.0
    }
}

impl vstd::std_specs::convert::FromSpecImpl<MfrModel> for u64 {
    open spec fn obeys_from_spec() -> bool {
        true
    }

    open spec fn from_spec(reg: MfrModel) -> u64 {
        reg.spec_bits()
    }
}

impl ConvertRaw<8> for MfrModel {
    fn from_raw(raw: [u8; 8]) -> (r: MfrModel)
        ensures
            r.spec_bits() == le_value(raw@),
            r.spec_model() == raw@.subrange(1, 7),
    {
        let v: u64 = u64_from_le_bytes(raw);
        proof {
            reveal_with_fuel(le_value, 9);
            let m = raw@.subrange(1, 7);
            assert(raw@.drop_first().drop_first().drop_first().drop_first().drop_first().drop_first().drop_first().drop_first()
                =~= Seq::<u8>::empty());
            assert(m.drop_first().drop_first().drop_first().drop_first().drop_first().drop_first()
                =~= Seq::<u8>::empty());
            let r0 = raw[0];
            let r1 = raw[1];
            let r2 = raw[2];
            let r3 = raw[3];
            let r4 = raw[4];
            let r5 = raw[5];
            let r6 = raw[6];
            let r7 = raw[7];
            assert(v == r0 + 256 * (r1 + 256 * (r2 + 256 * (r3 + 256 * (r4 + 256 * (r5 + 256 * (r6
                + 256 * r7)))))) ==> (v / 256) % 0x1000000000000 == r1 + 256 * (r2 + 256 * (r3 + 256
                * (r4 + 256 * (r5 + 256 * r6))))) by (bit_vector);
            lemma_bits_u64_round_trip(0, m);
        }
        MfrModel(v)
    }

    fn to_raw(&self) -> (r: [u8; 8])
        ensures
            le_value(r@) == self.spec_bits(),
    {
        u64_to_le_bytes(self.0)
    }
}

impl Register<u64> for MfrModel {
    fn address() -> (r: u8)
        ensures
            r == 0x9a,
    {
        0x9a
    }
}

/// The 15-bit two's-complement value in the low bits of `bits`.
pub open spec fn calibration_of(bits: u16) -> i16 {
    let c = bits as int % 32768;
    (if c >= 16384 {
        c - 32768
    } else {
        c
    }) as i16
}

/// The calibration register: a 15-bit signed calibration value, and one reserved bit on top.
#[derive(Copy, Clone, Debug, PartialEq, Eq, Structural)]
pub struct Calibration(u16);

impl Calibration {
    /// The raw register word.
    pub closed spec fn spec_bits(self) -> u16 {
        self.0
    }

    /// The register with the given raw word.
    pub closed spec fn spec_from_bits(bits: u16) -> Calibration {
        Calibration(bits)
    }

    /// A register is its raw word.
    pub proof fn lemma_bits(bits: u16, reg: Calibration)
        ensures
            #[trigger] Calibration::spec_from_bits(bits).spec_bits() == bits,
            Calibration::spec_from_bits(reg.spec_bits()) == reg,
    {
    }

    /// The calibration value.
    pub open spec fn spec_calibration(self) -> i16 {
        calibration_of(self.spec_bits())
    }

    /// Whether `value` fits the 15-bit signed field.
    pub open spec fn fits(value: i16) -> bool {
        -16384 <= value <= 16383
    }

    /// The register with a calibration value of 1 and the reserved bit clear.
    pub fn new() -> (r: Calibration)
        ensures
            r.spec_bits() == 1,
            r.spec_calibration() == 1,
    {
        Calibration(0).with_calibration(1)
    }

    /// The register with the given raw word.
    pub fn from_bits(bits: u16) -> (r: Calibration)
        ensures
            r.spec_bits() == bits,
    {
        Calibration(bits)
    }

    /// The raw register word.
    pub fn into_bits(self) -> (r: u16)
        ensures
            r == self.spec_bits(),
    {
        self.0
    }

    /// The calibration value, sign-extended from 15 bits.
    pub fn calibration(&self) -> (r: i16)
        ensures
            r == self.spec_calibration(),
    {
        let b: u16 = self.0;
        let mask: u16 = 0x7fff;
        assert((b & 0x7fffu16) == b % 32768) by (bit_vector);
        let this: u16 = b & mask;
        if this >= 0x4000 {
            (this as i32 - 0x8000) as i16
        } else {
            this as i16
        }
    }

    /// This register with the calibration value `value`; the reserved bit is kept.
    pub fn with_calibration(self, value: i16) -> (r: Calibration)
        requires
            Calibration::fits(value),
        ensures
            r.spec_calibration() == value,
            r.spec_bits() / 32768 == self.spec_bits() / 32768,
    {
        let b: u16 = self.0;
        let v: u16 = (if value < 0 {
            (value as i32 + 0x8000) as u16
        } else {
            value as u16
        });
        let mask: u16 = 0x7fff;
        assert(v < 32768 ==> (b & !mask | (v & mask)) % 32768 == v && (b & !mask | (v & mask)) / 32768
            == b / 32768) by (bit_vector)
            requires
                mask == 0x7fff,
        ;
        Calibration(b & !mask | (v & mask))
    }

    /// This register with the calibration value `value`, or an error when `value`
    /// does not fit 15 signed bits.
    pub fn with_calibration_checked(self, value: i16) -> (r: Result<Calibration, ()>)
        ensures
            r is Ok <==> Calibration::fits(value),
            r matches Ok(c) ==> c.spec_calibration() == value && c.spec_bits() / 32768
                == self.spec_bits() / 32768,
    {
        if -16384 <= value && value <= 16383 {
            Ok(self.with_calibration(value))
        } else {
            Err(())
        }
    }

    /// Sets the calibration value to `value`.
    pub fn set_calibration(&mut self, value: i16)
        requires
            Calibration::fits(value),
        ensures
            final(self).spec_calibration() == value,
            final(self).spec_bits() / 32768 == old(self).spec_bits() / 32768,
    {
        *self = self.with_calibration(value);
    }

    /// Sets the calibration value to `value`, or leaves the register as it is and
    /// reports an error when `value` does not fit 15 signed bits.
    pub fn set_calibration_checked(&mut self, value: i16) -> (r: Result<(), ()>)
        ensures
            r is Ok <==> Calibration::fits(value),
            r is Ok ==> final(self).spec_calibration() == value && final(self).spec_bits() / 32768
                == old(self).spec_bits() / 32768,
            r is Err ==> *final(self) == *old(self),
    {
        match self.with_calibration_checked(value) {
            Ok(c) => {
                *self = c;
                Ok(())
            },
            Err(e) => Err(e),
        }
    }
}

impl Default for Calibration {
    fn default() -> (r: Calibration)
        ensures
            r.spec_bits() == 1,
    {
        Calibration::new()
    }
}

impl From<u16> for Calibration {
    fn from(bits: u16) -> (r: Calibration) {
        Calibration(bits)
    }
}

impl vstd::std_specs::convert::FromSpecImpl<u16> for Calibration {
    open spec fn obeys_from_spec() -> bool {
        true
    }

    open spec fn from_spec(bits: u16) -> Calibration {
        Calibration::spec_from_bits(bits)
    }
}

impl From<Calibration> for u16 {
    fn from(reg: Calibration) -> (r: u16) {
        reg.0
    }
}

impl vstd::std_specs::convert::FromSpecImpl<Calibration> for u16 {
    open spec fn obeys_from_spec() -> bool {
        true
    }

    open spec fn from_spec(reg: Calibration) -> u16 {
        reg.spec_bits()
    }
}

impl ConvertRaw<2> for Calibration {
    fn from_raw(raw: [u8; 2]) -> (r: Calibration)
        ensures
            r.spec_bits() == le_value(raw@),
    {
        Calibration(u16_from_le_bytes(raw))
    }

    fn to_raw(&self) -> (r: [u8; 2])
        ensures
            le_value(r@) == self.spec_bits(),
            r[0] == self.spec_bits() % 256,
            r[1] == self.spec_bits() / 256,
    {
        u16_to_le_bytes(self.0)
    }
}

impl Register<u16> for Calibration {
    fn address() -> (r: u8)
        ensures
            r == 0xd4,
    {
        0xd4
    }
}


/// The value of `n` little-endian bytes is below 256 to the power `n`, so a
/// register decoded from its bytes loses nothing.
pub proof fn lemma_le_value_bound(s: Seq<u8>)
    ensures
        le_value(s) < pow256(s.len()),
    decreases s.len(),
{
    if s.len() > 0 {
        lemma_le_value_bound(s.drop_first());
        assert(s[0] + 256 * le_value(s.drop_first()) < 256 * pow256(s.drop_first().len()))
            by (nonlinear_arith)
            requires
                s[0] < 256,
                le_value(s.drop_first()) < pow256(s.drop_first().len()),
        ;
    }
}

/// Writing back a register that was read from `raw` sends exactly the bytes `raw`:
/// `to_raw` yields bytes whose value is the register's word, `from_raw` gives the
/// register the value of `raw`, and bytes of one length with one value are equal.
pub proof fn lemma_raw_round_trip(raw: Seq<u8>, written: Seq<u8>)
    requires
        raw.len() == written.len(),
        le_value(written) == le_value(raw),
    ensures
        written == raw,
{
    lemma_le_value_injective(written, raw);
}

} // verus!
