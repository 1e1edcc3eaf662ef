use heater_dac::addresses::AddressList;
use heater_dac::commands::{Commands, Dacs};
use heater_dac::dac::{Channel, Channels, ClearCode, Configuration, PowerDownMode, Register};
use heater_dac::dac_task::{zero_frame, DacAction, DacEvent, DacResponse, DacTask};
use heater_dac::report_task::{report_adc_config, report_configuration, ReportAction, ReportEvent, ReportTask};

#[test]
fn address_list_holds_sixteen() {
    let mut l = AddressList::new();
    for a in 0u8..16 {
        assert_eq!(l.push(a), Ok(()));
    }
    assert_eq!(l.push(99), Err(99));
    assert_eq!(l.len(), 16);
    assert_eq!(l.get(3), 3);
    assert!(l.contains(15));
    assert!(!l.contains(99));
    l.clear();
    assert!(l.is_empty());
}

/// Runs the DAC task's start-up with DACs answering at `present`.
fn started(present: &[u8]) -> (DacTask<u16>, DacAction<u16>) {
    let (mut task, mut action) = DacTask::<u16>::new();
    loop {
        action = match action {
            DacAction::Probe(a) => task.step(DacEvent::Probed(present.contains(&a))),
            DacAction::WaitTick => task.step(DacEvent::Ticked),
            DacAction::Reset(_) => task.step(DacEvent::ResetDone(true)),
            DacAction::ConfigureAll(_) => task.step(DacEvent::Configured),
            DacAction::ClearCommands => task.step(DacEvent::Cleared),
            other => return (task, other),
        };
    }
}

#[test]
fn dac_task_start_up() {
    let (mut task, action) = DacTask::<u16>::new();
    assert_eq!(action, DacAction::Probe(0x48));
    assert!(!task.ready());
    let mut probes = vec![];
    let mut action = action;
    while let DacAction::Probe(a) = action {
        probes.push(a);
        action = task.step(DacEvent::Probed(a == 0x4a || a == 0x49));
    }
    assert_eq!(probes, vec![0x48, 0x49, 0x4a, 0x4b, 0x4c]);
    assert_eq!(action, DacAction::WaitTick);
    assert_eq!(task.step(DacEvent::Ticked), DacAction::Reset(0x4a));
    assert_eq!(
        task.step(DacEvent::ResetDone(true)),
        DacAction::ConfigureAll(Configuration::ClearCode(ClearCode::MidScale))
    );
    assert_eq!(
        task.step(DacEvent::Configured),
        DacAction::ConfigureAll(Configuration::PowerDown { mode: PowerDownMode::HighZ, channels: Channels::from_bits(0xff) })
    );
    assert_eq!(task.step(DacEvent::Configured), DacAction::ClearCommands);
    assert!(task.ready());
    assert_eq!(task.step(DacEvent::Cleared), DacAction::Receive);
}

#[test]
fn dac_task_rescans_while_nothing_answers() {
    let (mut task, mut action) = DacTask::<u16>::new();
    for _ in 0..5 {
        action = task.step(DacEvent::Probed(false));
    }
    assert_eq!(action, DacAction::WaitTick);
    assert_eq!(task.step(DacEvent::Ticked), DacAction::Probe(0x48));
}

#[test]
fn dac_task_restarts_after_a_failed_reset() {
    let (mut task, mut action) = DacTask::<u16>::new();
    for a in 0x48u8..=0x4c {
        action = task.step(DacEvent::Probed(a == 0x48 || a == 0x4c));
    }
    assert_eq!(action, DacAction::WaitTick);
    assert_eq!(task.step(DacEvent::Ticked), DacAction::Reset(0x48));
    assert_eq!(task.step(DacEvent::ResetDone(true)), DacAction::Reset(0x4c));
    assert_eq!(task.step(DacEvent::ResetDone(false)), DacAction::Probe(0x48));
    assert!(!task.ready());
}

#[test]
fn dac_task_serves_commands() {
    let (mut task, action) = started(&[0x48, 0x4a]);
    assert_eq!(action, DacAction::Receive);
    let a = task.step(DacEvent::Command(Commands::ReadDac { dac: Dacs::Dac0, channel: Channel::C }));
    assert_eq!(a, DacAction::Read { address: 0x4a, register: Register::ChannelDac(Channel::C) });
    let cfg = Configuration::ChannelDac { channel: Channel::C, value: 0x1230 };
    assert_eq!(task.step(DacEvent::ReadDone(Some(cfg))), DacAction::Respond(DacResponse::ReadValue(cfg)));
    assert_eq!(task.step(DacEvent::Sent), DacAction::Receive);

    let a = task.step(DacEvent::Command(Commands::ReadDac { dac: Dacs::Dac2, channel: Channel::C }));
    assert_eq!(a, DacAction::Respond(DacResponse::ReadNotFound));
    assert_eq!(task.step(DacEvent::Sent), DacAction::Receive);

    let a = task.step(DacEvent::Command(Commands::WriteDac { dac: Dacs::Dac1, channel: Channel::All, value: 7u16 }));
    assert_eq!(a, DacAction::WriteAndUpdate { address: 0x48, channel: Channel::All, value: 7 });
    assert_eq!(task.step(DacEvent::WriteDone(true)), DacAction::Respond(DacResponse::Written));
    assert_eq!(task.step(DacEvent::Sent), DacAction::Receive);

    let a = task.step(DacEvent::Command(Commands::WriteDac { dac: Dacs::Dac2, channel: Channel::A, value: 7u16 }));
    assert_eq!(a, DacAction::Respond(DacResponse::WriteNotFound));
    assert_eq!(task.step(DacEvent::Sent), DacAction::Receive);

    let a = task.step(DacEvent::Command(Commands::EnableOutputs));
    assert_eq!(
        a,
        DacAction::SetOutputs {
            config: Configuration::PowerDown { mode: PowerDownMode::Normal, channels: Channels::from_bits(0xff) },
            enable: true
        }
    );
    assert_eq!(task.step(DacEvent::OutputsSet), DacAction::Respond(DacResponse::OutputsEnabled));
    assert_eq!(task.step(DacEvent::Sent), DacAction::Receive);

    let a = task.step(DacEvent::Command(Commands::DisableOutputs));
    assert_eq!(
        a,
        DacAction::SetOutputs {
            config: Configuration::PowerDown { mode: PowerDownMode::HighZ, channels: Channels::from_bits(0xff) },
            enable: false
        }
    );
    assert_eq!(task.step(DacEvent::OutputsSet), DacAction::Respond(DacResponse::OutputsDisabled));
    assert_eq!(task.step(DacEvent::Sent), DacAction::Receive);

    let a = task.step(DacEvent::Command(Commands::Help));
    assert_eq!(a, DacAction::Respond(DacResponse::Unknown));
    assert_eq!(task.step(DacEvent::Sent), DacAction::Receive);
}

#[test]
fn dac_task_restarts_after_a_failed_transfer() {
    let (mut task, _) = started(&[0x4c]);
    task.step(DacEvent::Command(Commands::WriteDac { dac: Dacs::Dac2, channel: Channel::B, value: 1u16 }));
    assert_eq!(task.step(DacEvent::WriteDone(false)), DacAction::Respond(DacResponse::WriteFailed));
    assert!(task.ready());
    assert_eq!(task.step(DacEvent::Sent), DacAction::Probe(0x48));
    assert!(!task.ready());

    let (mut task, _) = started(&[0x4c]);
    task.step(DacEvent::Command(Commands::ReadDac { dac: Dacs::Dac2, channel: Channel::B }));
    assert_eq!(task.step(DacEvent::ReadDone(None)), DacAction::Respond(DacResponse::ReadFailed));
    assert_eq!(task.step(DacEvent::Sent), DacAction::Probe(0x48));
}

#[test]
fn dac_task_ignores_stray_events() {
    let (mut task, _) = started(&[0x48]);
    assert_eq!(task.step(DacEvent::Ticked), DacAction::Receive);
    assert_eq!(task.step(DacEvent::Probed(true)), DacAction::Receive);
}

#[test]
fn report_configuration_of_the_monitors() {
    assert_eq!(report_adc_config().into_bits(), 0x41b0);
    let b = report_configuration(0x45, 96u32);
    assert_eq!(b.device_address(), 0x45);
    assert_eq!(b.lsb, Some(96));
    assert_eq!(b.adc_conf.into_bits(), 0x41b0);
}

#[test]
fn report_task_cycle() {
    let (mut task, action) = ReportTask::new();
    assert_eq!(action, ReportAction::ClearSensors);
    let mut action = task.step(ReportEvent::Cleared);
    let mut probes = 0;
    while let ReportAction::Probe(a) = action {
        probes += 1;
        action = task.step(ReportEvent::Probed(a == 0x41 || a == 0x4f));
    }
    assert_eq!(probes, 16);
    assert_eq!(action, ReportAction::WaitTick);
    assert_eq!(task.step(ReportEvent::Ticked), ReportAction::StartSensor(0x41));
    assert_eq!(task.step(ReportEvent::Started(true)), ReportAction::StartSensor(0x4f));
    assert_eq!(task.step(ReportEvent::Started(true)), ReportAction::MeasureSensor(0));
    assert_eq!(task.step(ReportEvent::Measured(true)), ReportAction::MeasureSensor(1));
    assert_eq!(task.step(ReportEvent::Measured(true)), ReportAction::WaitTick);
    assert_eq!(task.step(ReportEvent::Ticked), ReportAction::MeasureSensor(0));
    assert_eq!(task.step(ReportEvent::Measured(false)), ReportAction::ClearSensors);
    assert_eq!(task.step(ReportEvent::Cleared), ReportAction::Probe(0x40));
}

#[test]
fn report_task_restarts_when_a_monitor_fails_to_start() {
    let (mut task, _) = ReportTask::new();
    let mut action = task.step(ReportEvent::Cleared);
    while let ReportAction::Probe(a) = action {
        action = task.step(ReportEvent::Probed(a == 0x40));
    }
    assert_eq!(task.step(ReportEvent::Ticked), ReportAction::StartSensor(0x40));
    assert_eq!(task.step(ReportEvent::Started(false)), ReportAction::ClearSensors);
}

#[test]
fn dac_task_all_off_zeroes_every_dac_then_powers_down() {
    let (mut task, action) = started(&[0x48, 0x4a, 0x4c]);
    assert_eq!(action, DacAction::Receive);
    assert_eq!(task.step(DacEvent::Command(Commands::AllOff)), DacAction::ZeroChannels(0x48));
    assert_eq!(task.step(DacEvent::Zeroed), DacAction::ZeroChannels(0x4a));
    assert_eq!(task.step(DacEvent::Zeroed), DacAction::ZeroChannels(0x4c));
    assert_eq!(
        task.step(DacEvent::Zeroed),
        DacAction::SetOutputs {
            config: Configuration::PowerDown { mode: PowerDownMode::HighZ, channels: Channels::from_bits(0xff) },
            enable: false
        }
    );
    assert_eq!(task.step(DacEvent::OutputsSet), DacAction::Respond(DacResponse::OutputsDisabled));
    assert_eq!(task.step(DacEvent::Sent), DacAction::Receive);
    assert!(task.ready());
}

#[test]
fn zero_frame_writes_code_zero_to_all_channels() {
    assert_eq!(zero_frame(), [0x3f, 0x00, 0x00]);
}
