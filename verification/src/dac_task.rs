//! The decisions of the DAC task: find the DACs on the bus, reset them, set their
//! clear code and power-down state, then serve the console's commands.
//!
//! The task is a state machine: each step takes what came of the last action
//! and yields the next action, which the caller carries out on the bus.

use vstd::prelude::*;
use crate::addresses::AddressList;
use crate::commands::{Commands, Dacs};
use crate::dac::{
    command_byte, command_bytes, frame, Address, Channel, Channels, ClearCode, CommandType,
    Configuration, PowerDownMode, Register,
};

verus! {

/// First address of the scan for DACs.
pub const SCAN_FIRST: u8 = 0x48;
/// Last address of the scan for DACs.
pub const SCAN_LAST: u8 = 0x4c;

/// The answer to a console command.
#[derive(Debug, Clone, Copy, PartialEq, Eq, Structural)]
pub enum DacResponse {
    /// The channel register read back this configuration.
    ReadValue(Configuration),
    /// No DAC at the command's address: nothing was read.
    ReadNotFound,
    /// The read failed on the bus.
    ReadFailed,
    /// The value was written and the channel updated.
    Written,
    /// No DAC at the command's address: nothing was written.
    WriteNotFound,
    /// The write failed on the bus.
    WriteFailed,
    /// The outputs were powered up and the amplifier enabled.
    OutputsEnabled,
    /// The outputs were set to high impedance and the amplifier disabled.
    OutputsDisabled,
    /// The command is not one for the DAC task.
    Unknown,
}

/// Where the DAC task stands.
#[derive(Debug, Clone, Copy, PartialEq)]
pub enum DacPhase<V> {
    /// Probing this address.
    Scan(u8),
    /// Waiting for the next tick after a scan.
    Tick,
    /// Resetting the found DAC at this position.
    Reset(usize),
    /// Setting every DAC's clear code to mid-scale.
    SetClearCode,
    /// Setting every DAC's outputs to high impedance.
    PowerDownAll,
    /// Announcing readiness and dropping queued commands.
    Flush,
    /// Waiting for a command.
    Receive,
    /// Reading a channel register.
    Read {
        /// The DAC's address.
        address: u8,
        /// The channel.
        channel: Channel,
    },
    /// Writing and updating a channel.
    Write {
        /// The DAC's address.
        address: u8,
        /// The channel.
        channel: Channel,
        /// The value to write.
        value: V,
    },
    /// Writing code 0 to every channel of the found DAC at this position, on the
    /// way to powering the outputs down.
    Zero(usize),
    /// Powering the outputs up (`true`) or down (`false`).
    Power(bool),
    /// Sending a response; with `restart`, the task starts over afterwards.
    Send {
        /// The response.
        response: DacResponse,
        /// Whether the task starts over after the response.
        restart: bool,
    },
}

/// What the DAC task asks of the bus, the pins and the command queues.
#[derive(Debug, Clone, Copy, PartialEq)]
pub enum DacAction<V> {
    /// Try a one-byte read at this address.
    Probe(u8),
    /// Wait for the next tick of the one-second ticker.
    WaitTick,
    /// Reset the DAC at this address to its power-on state.
    Reset(u8),
    /// Write this configuration to every DAC at once.
    ConfigureAll(Configuration),
    /// Announce that the DACs are ready and drop the queued commands.
    ClearCommands,
    /// Wait for a command.
    Receive,
    /// Read this register of the DAC at this address.
    Read {
        /// The DAC's address.
        address: u8,
        /// The register.
        register: Register,
    },
    /// Write `value` to the channel of the DAC at this address and update it.
    WriteAndUpdate {
        /// The DAC's address.
        address: u8,
        /// The channel.
        channel: Channel,
        /// The value.
        value: V,
    },
    /// Write code 0 to every channel of the DAC at this address and update them:
    /// the bytes of [`zero_frame`].
    ZeroChannels(u8),
    /// Write this configuration to every DAC, then drive the amplifier enable pin.
    SetOutputs {
        /// The configuration.
        config: Configuration,
        /// The level of the enable pin.
        enable: bool,
    },
    /// Send this response to the console.
    Respond(DacResponse),
}

/// What came of the last action.
#[derive(Debug, Clone, Copy, PartialEq)]
pub enum DacEvent<V> {
    /// Whether a device answered the probe.
    Probed(bool),
    /// The ticker ticked.
    Ticked,
    /// Whether the reset succeeded.
    ResetDone(bool),
    /// The broadcast configuration was sent (its outcome does not matter).
    Configured,
    /// Readiness was announced and the queue dropped.
    Cleared,
    /// A command arrived.
    Command(Commands<V>),
    /// The register read back this configuration, or failed.
    ReadDone(Option<Configuration>),
    /// Whether the write succeeded.
    WriteDone(bool),
    /// The zero code was written (its outcome does not matter).
    Zeroed,
    /// The outputs were set.
    OutputsSet,
    /// The response was sent.
    Sent,
}

/// The configuration that sets every channel to the power-down `mode`.
pub open spec fn power_all(mode: PowerDownMode) -> Configuration {
    Configuration::PowerDown { mode, channels: Channels::spec_from_bits(0xff) }
}

/// Where a command leads, given the addresses of the DACs that were found.
pub open spec fn command_phase<V>(cmd: Commands<V>, found: Seq<u8>) -> DacPhase<V> {
    match cmd {
        Commands::ReadDac { dac, channel } => if found.contains(dac.spec_code()) {
            DacPhase::Read { address: dac.spec_code(), channel }
        } else {
            DacPhase::Send { response: DacResponse::ReadNotFound, restart: false }
        },
        Commands::WriteDac { dac, channel, value } => if found.contains(dac.spec_code()) {
            DacPhase::Write { address: dac.spec_code(), channel, value }
        } else {
            DacPhase::Send { response: DacResponse::WriteNotFound, restart: false }
        },
        Commands::EnableOutputs => DacPhase::Power(true),
        Commands::DisableOutputs => DacPhase::Power(false),
        Commands::AllOff => if found.len() > 0 {
            DacPhase::Zero(0)
        } else {
            DacPhase::Power(false)
        },
        _ => DacPhase::Send { response: DacResponse::Unknown, restart: false },
    }
}

/// The task's next phase and found addresses after `event`.
///
/// A scan records each answering address that an ADDR0 strapping selects, then
/// waits for a tick, and scans again while nothing was found. The found DACs are
/// reset in order; a failed reset starts the task over. Then every DAC gets the
/// mid-scale clear code and high-impedance outputs, readiness is announced, and
/// commands are served; a failed read or write is answered and then starts the
/// task over. Turning all off first writes code 0 to every channel of each found
/// DAC, then powers the outputs down. An event that does not answer the pending
/// action changes nothing.
pub open spec fn spec_next<V>(phase: DacPhase<V>, found: Seq<u8>, event: DacEvent<V>) -> (
    DacPhase<V>,
    Seq<u8>,
) {
    let restart = (DacPhase::<V>::Scan(SCAN_FIRST), Seq::<u8>::empty());
    match phase {
        DacPhase::Scan(a) => match event {
            DacEvent::Probed(ok) => (
                if a < SCAN_LAST {
                    DacPhase::Scan((a + 1) as u8)
                } else {
                    DacPhase::Tick
                },
                if ok && Address::spec_from_code(a) is Some {
                    found.push(a)
                } else {
                    found
                },
            ),
            _ => (phase, found),
        },
        DacPhase::Tick => match event {
            DacEvent::Ticked => if found.len() == 0 {
                (DacPhase::Scan(SCAN_FIRST), found)
            } else {
                (DacPhase::Reset(0), found)
            },
            _ => (phase, found),
        },
        DacPhase::Reset(i) => match event {
            DacEvent::ResetDone(ok) => if !ok {
                restart
            } else if i + 1 < found.len() {
                (DacPhase::Reset((i + 1) as usize), found)
            } else {
                (DacPhase::SetClearCode, found)
            },
            _ => (phase, found),
        },
        DacPhase::SetClearCode => match event {
            DacEvent::Configured => (DacPhase::PowerDownAll, found),
            _ => (phase, found),
        },
        DacPhase::PowerDownAll => match event {
            DacEvent::Configured => (DacPhase::Flush, found),
            _ => (phase, found),
        },
        DacPhase::Flush => match event {
            DacEvent::Cleared => (DacPhase::Receive, found),
            _ => (phase, found),
        },
        DacPhase::Receive => match event {
            DacEvent::Command(cmd) => (command_phase(cmd, found), found),
            _ => (phase, found),
        },
        DacPhase::Read { .. } => match event {
            DacEvent::ReadDone(Some(config)) => (
                DacPhase::Send { response: DacResponse::ReadValue(config), restart: false },
                found,
            ),
            DacEvent::ReadDone(None) => (
                DacPhase::Send { response: DacResponse::ReadFailed, restart: true },
                found,
            ),
            _ => (phase, found),
        },
        DacPhase::Write { .. } => match event {
            DacEvent::WriteDone(ok) => (
                if ok {
                    DacPhase::Send { response: DacResponse::Written, restart: false }
                } else {
                    DacPhase::Send { response: DacResponse::WriteFailed, restart: true }
                },
                found,
            ),
            _ => (phase, found),
        },
        DacPhase::Zero(i) => match event {
            DacEvent::Zeroed => if i + 1 < found.len() {
                (DacPhase::Zero((i + 1) as usize), found)
            } else {
                (DacPhase::Power(false), found)
            },
            _ => (phase, found),
        },
        DacPhase::Power(enable) => match event {
            DacEvent::OutputsSet => (
                DacPhase::Send {
                    response: if enable {
                        DacResponse::OutputsEnabled
                    } else {
                        DacResponse::OutputsDisabled
                    },
                    restart: false,
                },
                found,
            ),
            _ => (phase, found),
        },
        DacPhase::Send { restart: again, .. } => match event {
            DacEvent::Sent => if again {
                restart
            } else {
                (DacPhase::Receive, found)
            },
            _ => (phase, found),
        },
    }
}

/// Whether the DACs count as ready in `phase`: once the start-up is through, up to
/// the next scan.
pub open spec fn phase_ready<V>(phase: DacPhase<V>) -> bool {
    !(phase is Scan || phase is Tick || phase is Reset || phase is SetClearCode || phase is PowerDownAll)
}

/// The action that the task asks for in `phase`.
pub open spec fn pending_of<V>(phase: DacPhase<V>, found: Seq<u8>) -> DacAction<V> {
    match phase {
        DacPhase::Scan(a) => DacAction::Probe(a),
        DacPhase::Tick => DacAction::WaitTick,
        DacPhase::Reset(i) => DacAction::Reset(found[i as int]),
        DacPhase::SetClearCode => DacAction::ConfigureAll(Configuration::ClearCode(ClearCode::MidScale)),
        DacPhase::PowerDownAll => DacAction::ConfigureAll(power_all(PowerDownMode::HighZ)),
        DacPhase::Flush => DacAction::ClearCommands,
        DacPhase::Receive => DacAction::Receive,
        DacPhase::Read { address, channel } => DacAction::Read {
            address,
            register: Register::ChannelDac(channel),
        },
        DacPhase::Write { address, channel, value } => DacAction::WriteAndUpdate {
            address,
            channel,
            value,
        },
        DacPhase::Zero(i) => DacAction::ZeroChannels(found[i as int]),
        DacPhase::Power(enable) => DacAction::SetOutputs {
            config: power_all(
                if enable {
                    PowerDownMode::Normal
                } else {
                    PowerDownMode::HighZ
                },
            ),
            enable,
        },
        DacPhase::Send { response, .. } => DacAction::Respond(response),
    }
}

/// The bytes that set every channel of a DAC to code 0 and update them.
pub fn zero_frame() -> (r: [u8; 3])
    ensures
        r@ == frame(command_byte(CommandType::WriteUpdate, Channel::All), 0u16),
{
    command_bytes(CommandType::WriteUpdate, Channel::All, 0)
}

/// The DAC task.
pub struct DacTask<V> {
    phase: DacPhase<V>,
    found: AddressList,
}

impl<V: Copy> DacTask<V> {
    /// Where the task stands.
    pub closed spec fn phase(self) -> DacPhase<V> {
        self.phase
    }

    /// The addresses of the DACs found, in the order they were found.
    pub closed spec fn found(self) -> Seq<u8> {
        self.found.items()
    }

    /// The task's bookkeeping is consistent: the found addresses are distinct and in
    /// increasing order, a scan stays within its range and has found no more addresses
    /// than it has probed, all of them below the one it probes, a reset addresses a found DAC,
    /// and every found address is one that an ADDR0 strapping selects.
    pub open spec fn wf(self) -> bool {
        &&& self.found().len() <= 5
        &&& forall|i: int| 0 <= i < self.found().len() ==> (#[trigger] Address::spec_from_code(self.found()[i])) is Some
        &&& forall|i: int, j: int| 0 <= i < j < self.found().len() ==> self.found()[i] < self.found()[j]
        &&& match self.phase() {
            DacPhase::Scan(a) => SCAN_FIRST <= a <= SCAN_LAST && self.found().len() <= a - SCAN_FIRST
                && forall|i: int| 0 <= i < self.found().len() ==> self.found()[i] < a,
            DacPhase::Reset(i) => i < self.found().len(),
            DacPhase::Zero(i) => i < self.found().len(),
            _ => true,
        }
    }

    /// Whether the DACs are ready for commands.
    pub open spec fn spec_ready(self) -> bool {
        phase_ready(self.phase())
    }

    /// A task that starts with a scan of the bus.
    pub fn new() -> (r: (DacTask<V>, DacAction<V>))
        ensures
            r.0.wf(),
            r.0.phase() == DacPhase::<V>::Scan(SCAN_FIRST),
            r.0.found() == Seq::<u8>::empty(),
            r.1 == pending_of(r.0.phase(), r.0.found()),
    {
        let task = DacTask { phase: DacPhase::Scan(SCAN_FIRST), found: AddressList::new() };
        let action = task.pending();
        (task, action)
    }

    /// Whether the DACs are ready for commands.
    pub fn ready(&self) -> (r: bool)
        ensures
            r == self.spec_ready(),
    {
        !matches!(
            self.phase,
            DacPhase::Scan(_) | DacPhase::Tick | DacPhase::Reset(_) | DacPhase::SetClearCode
                | DacPhase::PowerDownAll
        )
    }

    /// The action that the task asks for where it stands.
    pub fn pending(&self) -> (r: DacAction<V>)
        requires
            self.wf(),
        ensures
            r == pending_of(self.phase(), self.found()),
    {
        match self.phase {
            DacPhase::Scan(a) => DacAction::Probe(a),
            DacPhase::Tick => DacAction::WaitTick,
            DacPhase::Reset(i) => DacAction::Reset(self.found.get(i)),
            DacPhase::SetClearCode => DacAction::ConfigureAll(Configuration::ClearCode(ClearCode::MidScale)),
            DacPhase::PowerDownAll => DacAction::ConfigureAll(
                Configuration::PowerDown {
                    mode: PowerDownMode::HighZ,
                    channels: Channels::from_bits(0xff),
                },
            ),
            DacPhase::Flush => DacAction::ClearCommands,
            DacPhase::Receive => DacAction::Receive,
            DacPhase::Read { address, channel } => DacAction::Read {
                address,
                register: Register::ChannelDac(channel),
            },
            DacPhase::Write { address, channel, value } => DacAction::WriteAndUpdate {
                address,
                channel,
                value,
            },
            DacPhase::Zero(i) => DacAction::ZeroChannels(self.found.get(i)),
            DacPhase::Power(enable) => DacAction::SetOutputs {
                config: Configuration::PowerDown {
                    mode: if enable {
                        PowerDownMode::Normal
                    } else {
                        PowerDownMode::HighZ
                    },
                    channels: Channels::from_bits(0xff),
                },
                enable,
            },
            DacPhase::Send { response, .. } => DacAction::Respond(response),
        }
    }

    fn restart(&mut self)
        ensures
            final(self).phase() == DacPhase::<V>::Scan(SCAN_FIRST),
            final(self).found() == Seq::<u8>::empty(),
            final(self).wf(),
    {
        self.found.clear();
        self.phase = DacPhase::Scan(SCAN_FIRST);
    }

    /// Takes what came of the last action and yields the next action.
    pub fn step(&mut self, event: DacEvent<V>) -> (r: DacAction<V>)
        requires
            old(self).wf(),
        ensures
            final(self).wf(),
            (final(self).phase(), final(self).found()) == spec_next(old(self).phase(), old(self).found(), event),
            r == pending_of(final(self).phase(), final(self).found()),
    {
        match (self.phase, event) {
            (DacPhase::Scan(a), DacEvent::Probed(ok)) => {
                if ok && Address::from_code(a).is_some() {
                    let _ = self.found.push(a);
                }
                if a < SCAN_LAST {
                    self.phase = DacPhase::Scan(a + 1);
                } else {
                    self.phase = DacPhase::Tick;
                }
            },
            (DacPhase::Tick, DacEvent::Ticked) => {
                if self.found.is_empty() {
                    self.phase = DacPhase::Scan(SCAN_FIRST);
                } else {
                    self.phase = DacPhase::Reset(0);
                }
            },
            (DacPhase::Reset(i), DacEvent::ResetDone(ok)) => {
                if !ok {
                    self.restart();
                } else if i + 1 < self.found.len() {
                    self.phase = DacPhase::Reset(i + 1);
                } else {
                    self.phase = DacPhase::SetClearCode;
                }
            },
            (DacPhase::SetClearCode, DacEvent::Configured) => {
                self.phase = DacPhase::PowerDownAll;
            },
            (DacPhase::PowerDownAll, DacEvent::Configured) => {
                self.phase = DacPhase::Flush;
            },
            (DacPhase::Flush, DacEvent::Cleared) => {
                self.phase = DacPhase::Receive;
            },
            (DacPhase::Receive, DacEvent::Command(cmd)) => {
                self.phase = match cmd {
                    Commands::ReadDac { dac, channel } => {
                        let address = dac.code();
                        if self.found.contains(address) {
                            DacPhase::Read { address, channel }
                        } else {
                            DacPhase::Send { response: DacResponse::ReadNotFound, restart: false }
                        }
                    },
                    Commands::WriteDac { dac, channel, value } => {
                        let address = dac.code();
                        if self.found.contains(address) {
                            DacPhase::Write { address, channel, value }
                        } else {
                            DacPhase::Send { response: DacResponse::WriteNotFound, restart: false }
                        }
                    },
                    Commands::EnableOutputs => DacPhase::Power(true),
                    Commands::DisableOutputs => DacPhase::Power(false),
                    Commands::AllOff => if self.found.is_empty() {
                        DacPhase::Power(false)
                    } else {
                        DacPhase::Zero(0)
                    },
                    _ => DacPhase::Send { response: DacResponse::Unknown, restart: false },
                };
            },
            (DacPhase::Read { .. }, DacEvent::ReadDone(result)) => {
                self.phase = match result {
                    Some(config) => DacPhase::Send {
                        response: DacResponse::ReadValue(config),
                        restart: false,
                    },
                    None => DacPhase::Send { response: DacResponse::ReadFailed, restart: true },
                };
            },
            (DacPhase::Write { .. }, DacEvent::WriteDone(ok)) => {
                self.phase = if ok {
                    DacPhase::Send { response: DacResponse::Written, restart: false }
                } else {
                    DacPhase::Send { response: DacResponse::WriteFailed, restart: true }
                };
            },
            (DacPhase::Zero(i), DacEvent::Zeroed) => {
                if i + 1 < self.found.len() {
                    self.phase = DacPhase::Zero(i + 1);
                } else {
                    self.phase = DacPhase::Power(false);
                }
            },
            (DacPhase::Power(enable), DacEvent::OutputsSet) => {
                self.phase = DacPhase::Send {
                    response: if enable {
                        DacResponse::OutputsEnabled
                    } else {
                        DacResponse::OutputsDisabled
                    },
                    restart: false,
                };
            },
            (DacPhase::Send { restart, .. }, DacEvent::Sent) => {
                if restart {
                    self.restart();
                } else {
                    self.phase = DacPhase::Receive;
                }
            },
            _ => {},
        }
        self.pending()
    }
}

} // verus!
