//! The decisions of the report task: find the INA233 power monitors on the bus,
//! start each of them, then measure them all once per tick.
//!
//! The task is a state machine: each step takes what came of the last action
//! and yields the next action, which the caller carries out.

use vstd::prelude::*;
use crate::addresses::AddressList;
use crate::ina233::{AddrPin, ConfigurationBuilder, spec_device_address};
use crate::registers::{AdcConfig, AdcMode, Averages, ConversionTime};

verus! {

/// First address of the scan for power monitors.
pub const SCAN_FIRST: u8 = 0x40;
/// Last address of the scan for power monitors.
pub const SCAN_LAST: u8 = 0x4f;

/// The ADC configuration of the power monitors: the starting values, with 4.156 ms
/// conversions of both the bus and the shunt voltage.
pub fn report_adc_config() -> (r: AdcConfig)
    ensures
        r.spec_mode() == AdcMode::PowerDown,
        r.spec_vshunt_conv_time() == ConversionTime::Ms4_156,
        r.spec_vbus_conv_time() == ConversionTime::Ms4_156,
        r.spec_averaging() == Averages::Avg1,
        r.rsvd_code() == 0b0100,
        r.spec_bits() == 0x41b0,
{
    let r = AdcConfig::default().with_vbus_conv_time(ConversionTime::Ms4_156).with_vshunt_conv_time(
        ConversionTime::Ms4_156,
    );
    proof {
        r.lemma_fields();
    }
    r
}

/// The driver configuration of the power monitor at `addr`, with the current LSB `lsb`.
pub fn report_configuration<L>(addr: u8, lsb: L) -> (r: ConfigurationBuilder<L>)
    ensures
        r.a0 == AddrPin::spec_from(addr),
        r.a1 == AddrPin::spec_from(addr / 4),
        r.adc_conf.spec_bits() == 0x41b0,
        r.lsb == Some(lsb),
        0x40 <= addr <= 0x4f ==> spec_device_address(r.a0, r.a1) == addr,
{
    ConfigurationBuilder::default().address(addr).current_lsb(lsb).adc_config(report_adc_config())
}

/// Where the report task stands.
#[derive(Debug, Clone, Copy, PartialEq, Eq, Structural)]
pub enum ReportPhase {
    /// Dropping the started monitors and the found addresses.
    Clear,
    /// Probing this address.
    Scan(u8),
    /// Waiting for the next tick after a scan.
    ScanTick,
    /// Starting the found monitor at this position.
    Start(usize),
    /// Measuring the monitor at this position.
    Measure(usize),
    /// Waiting for the next tick after a round of measurements.
    Wait,
}

/// What the report task asks of the bus and the ticker.
#[derive(Debug, Clone, Copy, PartialEq, Eq, Structural)]
pub enum ReportAction {
    /// Drop every started monitor.
    ClearSensors,
    /// Try a one-byte read at this address.
    Probe(u8),
    /// Wait for the next tick of the one-second ticker.
    WaitTick,
    /// Start the monitor at this address with [`report_configuration`] and keep it
    /// as the next started monitor.
    StartSensor(u8),
    /// Measure the started monitor at this position and report the measurement.
    MeasureSensor(usize),
}

/// What came of the last action.
#[derive(Debug, Clone, Copy, PartialEq, Eq, Structural)]
pub enum ReportEvent {
    /// The started monitors were dropped.
    Cleared,
    /// Whether a device answered the probe.
    Probed(bool),
    /// The ticker ticked.
    Ticked,
    /// Whether the monitor started.
    Started(bool),
    /// Whether the measurement succeeded.
    Measured(bool),
}

/// The task's next phase and found addresses after `event`.
///
/// A scan records each answering address, then waits for a tick, and scans again
/// while nothing was found. The found monitors are started in order, then measured
/// in order once per tick. A monitor that fails to start or to measure starts the
/// task over. An event that does not answer the pending action changes nothing.
pub open spec fn spec_next(phase: ReportPhase, found: Seq<u8>, event: ReportEvent) -> (ReportPhase, Seq<u8>) {
    match phase {
        ReportPhase::Clear => match event {
            ReportEvent::Cleared => (ReportPhase::Scan(SCAN_FIRST), Seq::empty()),
            _ => (phase, found),
        },
        ReportPhase::Scan(a) => match event {
            ReportEvent::Probed(ok) => (
                if a < SCAN_LAST {
                    ReportPhase::Scan((a + 1) as u8)
                } else {
                    ReportPhase::ScanTick
                },
                if ok {
                    found.push(a)
                } else {
                    found
                },
            ),
            _ => (phase, found),
        },
        ReportPhase::ScanTick => match event {
            ReportEvent::Ticked => if found.len() == 0 {
                (ReportPhase::Scan(SCAN_FIRST), found)
            } else {
                (ReportPhase::Start(0), found)
            },
            _ => (phase, found),
        },
        ReportPhase::Start(i) => match event {
            ReportEvent::Started(ok) => if !ok {
                (ReportPhase::Clear, found)
            } else if i + 1 < found.len() {
                (ReportPhase::Start((i + 1) as usize), found)
            } else {
                (ReportPhase::Measure(0), found)
            },
            _ => (phase, found),
        },
        ReportPhase::Measure(i) => match event {
            ReportEvent::Measured(ok) => if !ok {
                (ReportPhase::Clear, found)
            } else if i + 1 < found.len() {
                (ReportPhase::Measure((i + 1) as usize), found)
            } else {
                (ReportPhase::Wait, found)
            },
            _ => (phase, found),
        },
        ReportPhase::Wait => match event {
            ReportEvent::Ticked => (ReportPhase::Measure(0), found),
            _ => (phase, found),
        },
    }
}

/// The action that the task asks for in `phase`.
pub open spec fn pending_of(phase: ReportPhase, found: Seq<u8>) -> ReportAction {
    match phase {
        ReportPhase::Clear => ReportAction::ClearSensors,
        ReportPhase::Scan(a) => ReportAction::Probe(a),
        ReportPhase::ScanTick => ReportAction::WaitTick,
        ReportPhase::Start(i) => ReportAction::StartSensor(found[i as int]),
        ReportPhase::Measure(i) => ReportAction::MeasureSensor(i),
        ReportPhase::Wait => ReportAction::WaitTick,
    }
}

/// Where the task stands after `events`, from `phase` with the monitors `found`.
pub open spec fn run(phase: ReportPhase, found: Seq<u8>, events: Seq<ReportEvent>) -> (ReportPhase, Seq<u8>)
    decreases events.len(),
{
    if events.len() == 0 {
        (phase, found)
    } else {
        let next = spec_next(phase, found, events[0]);
        run(next.0, next.1, events.drop_first())
    }
}

/// The answers `results` to successive probes, as events.
pub open spec fn probe_answers(results: Seq<bool>) -> Seq<ReportEvent>
    decreases results.len(),
{
    if results.len() == 0 {
        Seq::empty()
    } else {
        seq![ReportEvent::Probed(results[0])] + probe_answers(results.drop_first())
    }
}

proof fn lemma_scan_from(k: int, found: Seq<u8>, results: Seq<bool>)
    requires
        0 <= k < 16,
        results.len() == 16 - k,
    ensures
        run(ReportPhase::Scan((SCAN_FIRST + k) as u8), found, probe_answers(results)).0
            == ReportPhase::ScanTick,
        forall|a: u8|
            #[trigger] run(ReportPhase::Scan((SCAN_FIRST + k) as u8), found, probe_answers(results)).1.contains(a)
                <==> (found.contains(a) || (SCAN_FIRST + k <= a <= SCAN_LAST && results[a - SCAN_FIRST - k])),
    decreases results.len(),
{
    let a0 = (SCAN_FIRST + k) as u8;
    let events = probe_answers(results);
    let rest = results.drop_first();
    assert(events[0] == ReportEvent::Probed(results[0]));
    assert(events.drop_first() =~= probe_answers(rest));
    let next = spec_next(ReportPhase::Scan(a0), found, events[0]);
    let f2 = if results[0] {
        found.push(a0)
    } else {
        found
    };
    assert(next.1 == f2);
    assert forall|a: u8| #[trigger] f2.contains(a) <==> (found.contains(a) || (a == a0 && results[0])) by {
        if results[0] {
            if found.contains(a) {
                let i = choose|i: int| 0 <= i < found.len() && found[i] == a;
                assert(f2[i] == a);
            }
            if a == a0 {
                assert(f2[found.len() as int] == a);
            }
            if f2.contains(a) {
                let i = choose|i: int| 0 <= i < f2.len() && f2[i] == a;
                if i < found.len() {
                    assert(found[i] == a);
                }
            }
        }
    }
    assert(events.len() > 0);
    assert(run(ReportPhase::Scan(a0), found, events) == run(next.0, next.1, probe_answers(rest)));
    assert((SCAN_FIRST + k) as u8 == a0);
    if k < 15 {
        assert(next.0 == ReportPhase::Scan((SCAN_FIRST + (k + 1)) as u8));
        lemma_scan_from(k + 1, f2, rest);
        assert forall|a: u8| #[trigger] run(ReportPhase::Scan(a0), found, events).1.contains(a)
            <==> (found.contains(a) || (SCAN_FIRST + k <= a <= SCAN_LAST && results[a - SCAN_FIRST - k])) by {
            if SCAN_FIRST + k + 1 <= a <= SCAN_LAST {
                assert(rest[a - SCAN_FIRST - (k + 1)] == results[a - SCAN_FIRST - k]);
            }
        }
    } else {
        assert(next.0 == ReportPhase::ScanTick);
        assert(rest.len() == 0);
        assert(probe_answers(rest) =~= Seq::<ReportEvent>::empty());
        assert(run(next.0, next.1, probe_answers(rest)) == (ReportPhase::ScanTick, f2));
        assert forall|a: u8| #[trigger] run(ReportPhase::Scan(a0), found, events).1.contains(a)
            <==> (found.contains(a) || (SCAN_FIRST + k <= a <= SCAN_LAST && results[a - SCAN_FIRST - k])) by {
            if SCAN_FIRST + k <= a <= SCAN_LAST {
                assert(a == a0);
            }
        }
    }
}

/// A scan probes every address of the range once, in order, and records exactly
/// the addresses that answered; when none answered, the next tick starts the same
/// scan over from the first address, so a monitor that answers later is found.
pub proof fn lemma_scan_records_answers(results: Seq<bool>)
    requires
        results.len() == 16,
    ensures
        run(ReportPhase::Scan(SCAN_FIRST), Seq::empty(), probe_answers(results)).0 == ReportPhase::ScanTick,
        forall|a: u8|
            #[trigger] run(ReportPhase::Scan(SCAN_FIRST), Seq::empty(), probe_answers(results)).1.contains(a)
                <==> (SCAN_FIRST <= a <= SCAN_LAST && results[a - SCAN_FIRST]),
        (forall|i: int| 0 <= i < 16 ==> !#[trigger] results[i]) ==> ({
            let after = run(ReportPhase::Scan(SCAN_FIRST), Seq::empty(), probe_answers(results));
            let next = spec_next(after.0, after.1, ReportEvent::Ticked);
            &&& next.0 == ReportPhase::Scan(SCAN_FIRST)
            &&& next.1.len() == 0
            &&& pending_of(next.0, next.1) == ReportAction::Probe(SCAN_FIRST)
        }),
{
    lemma_scan_from(0, Seq::empty(), results);
    let after = run(ReportPhase::Scan(SCAN_FIRST), Seq::empty(), probe_answers(results));
    if forall|i: int| 0 <= i < 16 ==> !#[trigger] results[i] {
        if after.1.len() > 0 {
            let a = after.1[0];
            assert(after.1.contains(a));
            assert(results[a - SCAN_FIRST]);
            assert(false);
        }
    }
}

/// The tick after a scan never leaves the task idle: it starts the first found
/// monitor, or, when the scan found none, probes the first address again.
pub proof fn lemma_tick_after_scan(found: Seq<u8>)
    ensures
        pending_of(
            spec_next(ReportPhase::ScanTick, found, ReportEvent::Ticked).0,
            spec_next(ReportPhase::ScanTick, found, ReportEvent::Ticked).1,
        ) == if found.len() == 0 {
            ReportAction::Probe(SCAN_FIRST)
        } else {
            ReportAction::StartSensor(found[0])
        },
        spec_next(ReportPhase::ScanTick, found, ReportEvent::Ticked).1 == found,
{
}

/// The report task.
pub struct ReportTask {
    phase: ReportPhase,
    found: AddressList,
}

impl ReportTask {
    /// Where the task stands.
    pub closed spec fn phase(self) -> ReportPhase {
        self.phase
    }

    /// The addresses of the monitors found, in the order they were found.
    pub closed spec fn found(self) -> Seq<u8> {
        self.found.items()
    }

    /// The task's bookkeeping is consistent: the found addresses are distinct and in
    /// increasing order, a scan stays within its range and has found no more addresses
    /// than it has probed, all of them below the one it probes, and starting and measuring
    /// address found monitors.
    pub open spec fn wf(self) -> bool {
        &&& self.found().len() <= 16
        &&& forall|i: int, j: int| 0 <= i < j < self.found().len() ==> self.found()[i] < self.found()[j]
        &&& match self.phase() {
            ReportPhase::Scan(a) => SCAN_FIRST <= a <= SCAN_LAST && self.found().len() <= a - SCAN_FIRST
                && forall|i: int| 0 <= i < self.found().len() ==> self.found()[i] < a,
            ReportPhase::Start(i) => i < self.found().len(),
            ReportPhase::Measure(i) => i < self.found().len(),
            ReportPhase::Wait => self.found().len() > 0,
            _ => true,
        }
    }

    /// A task that starts by dropping any started monitor.
    pub fn new() -> (r: (ReportTask, ReportAction))
        ensures
            r.0.wf(),
            r.0.phase() == ReportPhase::Clear,
            r.0.found() == Seq::<u8>::empty(),
            r.1 == pending_of(r.0.phase(), r.0.found()),
    {
        let task = ReportTask { phase: ReportPhase::Clear, found: AddressList::new() };
        let action = task.pending();
        (task, action)
    }

    /// The action that the task asks for where it stands.
    pub fn pending(&self) -> (r: ReportAction)
        requires
            self.wf(),
        ensures
            r == pending_of(self.phase(), self.found()),
    {
        match self.phase {
            ReportPhase::Clear => ReportAction::ClearSensors,
            ReportPhase::Scan(a) => ReportAction::Probe(a),
            ReportPhase::ScanTick => ReportAction::WaitTick,
            ReportPhase::Start(i) => ReportAction::StartSensor(self.found.get(i)),
            ReportPhase::Measure(i) => ReportAction::MeasureSensor(i),
            ReportPhase::Wait => ReportAction::WaitTick,
        }
    }

    /// Takes what came of the last action and yields the next action.
    pub fn step(&mut self, event: ReportEvent) -> (r: ReportAction)
        requires
            old(self).wf(),
        ensures
            final(self).wf(),
            (final(self).phase(), final(self).found()) == spec_next(old(self).phase(), old(self).found(), event),
            r == pending_of(final(self).phase(), final(self).found()),
    {
        match (self.phase, event) {
            (ReportPhase::Clear, ReportEvent::Cleared) => {
                self.found.clear();
                self.phase = ReportPhase::Scan(SCAN_FIRST);
            },
            (ReportPhase::Scan(a), ReportEvent::Probed(ok)) => {
                if ok {
                    let _ = self.found.push(a);
                }
                if a < SCAN_LAST {
                    self.phase = ReportPhase::Scan(a + 1);
                } else {
                    self.phase = ReportPhase::ScanTick;
                }
            },
            (ReportPhase::ScanTick, ReportEvent::Ticked) => {
                if self.found.is_empty() {
                    self.phase = ReportPhase::Scan(SCAN_FIRST);
                } else {
                    self.phase = ReportPhase::Start(0);
                }
            },
            (ReportPhase::Start(i), ReportEvent::Started(ok)) => {
                if !ok {
                    self.phase = ReportPhase::Clear;
                } else if i + 1 < self.found.len() {
                    self.phase = ReportPhase::Start(i + 1);
                } else {
                    self.phase = ReportPhase::Measure(0);
                }
            },
            (ReportPhase::Measure(i), ReportEvent::Measured(ok)) => {
                if !ok {
                    self.phase = ReportPhase::Clear;
                } else if i + 1 < self.found.len() {
                    self.phase = ReportPhase::Measure(i + 1);
                } else {
                    self.phase = ReportPhase::Wait;
                }
            },
            (ReportPhase::Wait, ReportEvent::Ticked) => {
                self.phase = ReportPhase::Measure(0);
            },
            _ => {},
        }
        self.pending()
    }
}

} // verus!
