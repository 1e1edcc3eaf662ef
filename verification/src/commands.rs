//! The commands that the serial console accepts.

use vstd::prelude::*;
use crate::dac::{Address, Channel};

verus! {

/// The DACs on the board, by the strapping of their address pin.
#[derive(Debug, Clone, Copy, PartialEq, Eq, Structural)]
pub enum Dacs {
    /// The DAC with ADDR0 high.
    Dac0,
    /// The DAC with ADDR0 low.
    Dac1,
    /// The DAC with ADDR0 floating.
    Dac2,
}

impl Dacs {
    /// The DAC's I2C address.
    pub open spec fn spec_code(self) -> u8 {
        match self {
            Dacs::Dac0 => 0x4a,
            Dacs::Dac1 => 0x48,
            Dacs::Dac2 => 0x4c,
        }
    }

    /// The DAC's I2C address.
    pub fn code(self) -> (r: u8)
        ensures
            r == self.spec_code(),
    {
        Address::from(self).code()
    }
}

impl From<Dacs> for Address {
    fn from(dac: Dacs) -> (r: Address) {
        match dac {
            Dacs::Dac0 => Address::PinHigh,
            Dacs::Dac1 => Address::PinLow,
            Dacs::Dac2 => Address::PinFloat,
        }
    }
}

impl vstd::std_specs::convert::FromSpecImpl<Dacs> for Address {
    open spec fn obeys_from_spec() -> bool {
        true
    }

    open spec fn from_spec(dac: Dacs) -> Address {
        match dac {
            Dacs::Dac0 => Address::PinHigh,
            Dacs::Dac1 => Address::PinLow,
            Dacs::Dac2 => Address::PinFloat,
        }
    }
}

/// A DAC's address is the address of its pin strapping.
pub proof fn lemma_dac_address(dac: Dacs)
    ensures
        <Address as vstd::std_specs::convert::FromSpec<Dacs>>::from_spec(dac).spec_code() == dac.spec_code(),
{
}

/// A console command; `V` is the type of the value written to a DAC channel.
#[derive(Debug, Clone, Copy, PartialEq)]
pub enum Commands<V> {
    /// Read the value of a DAC channel.
    ReadDac {
        /// The DAC.
        dac: Dacs,
        /// The channel.
        channel: Channel,
    },
    /// Write a value to a DAC channel and update it.
    WriteDac {
        /// The DAC.
        dac: Dacs,
        /// The channel.
        channel: Channel,
        /// The value.
        value: V,
    },
    /// Disable the outputs and set all DAC channels to 0.
    AllOff,
    /// Enable the DAC outputs.
    EnableOutputs,
    /// Disable the DAC outputs.
    DisableOutputs,
    /// Report the telemetry cadence.
    GetReportCadence,
    /// Record the telemetry cadence, in milliseconds (stored and reported back).
    SetReportCadence(u32),
    /// Show the help message.
    Help,
}

} // verus!
