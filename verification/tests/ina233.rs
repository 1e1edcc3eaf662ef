use heater_dac::ina233::{
    device_address, AddrPin, ConfigurationBuilder, Error, I2cInterface, Ina233, Ina233Init,
    InitAction, InitEvent, InitStep,
};
use heater_dac::registers::{AdcConfig, Calibration, ConversionTime};

#[test]
fn address_pins() {
    assert_eq!(AddrPin::from(0x4d), AddrPin::Vdd);
    assert_eq!(AddrPin::from(0x4e), AddrPin::Sda);
    assert_eq!(AddrPin::from(0x03), AddrPin::Scl);
    assert_eq!(AddrPin::default(), AddrPin::Gnd);
    assert_eq!(AddrPin::address_range(), 0x40..=0x4f);
    assert_eq!(device_address(AddrPin::Scl, AddrPin::Sda), 0x4b);
    for addr in AddrPin::address_range() {
        let b = ConfigurationBuilder::<u32>::default().address(addr);
        assert_eq!(b.device_address(), addr);
    }
}

#[test]
fn builder_sets_each_field() {
    let b = ConfigurationBuilder::<u32>::default()
        .addr_a0(AddrPin::Sda)
        .addr_a1(AddrPin::Vdd)
        .current_lsb(96)
        .adc_config(AdcConfig::default().with_averaging(heater_dac::registers::Averages::Avg16));
    assert_eq!(b.a0, AddrPin::Sda);
    assert_eq!(b.a1, AddrPin::Vdd);
    assert_eq!(b.lsb, Some(96));
    assert_eq!(b.adc_conf.into_bits(), 0x4400);
    assert_eq!(b.device_address(), 0x46);
    let c = heater_dac::ina233::Configuration::from_builder(b, 2667, 96u32);
    assert_eq!(c.calibration, 2667);
    assert_eq!(c.device_address(), 0x46);
}

#[test]
fn error_from_bus_error() {
    let e: Error<u8> = Error::from(7u8);
    assert_eq!(e, Error::I2C(7));
}

fn ok_start() -> (Ina233Init, InitAction<()>) {
    Ina233Init::start::<()>(0x0a00, AdcConfig::default().with_vbus_conv_time(ConversionTime::Ms4_156))
}

#[test]
fn start_up_protocol_in_order() {
    let (init, action) = ok_start();
    assert!(matches!(action, InitAction::ReadRegister { command: 0x99, len: 4 }));
    let (init, action) = init.step(InitEvent::<()>::Bytes4([2, b'T', b'I', 0]));
    assert!(matches!(action, InitAction::ReadRegister { command: 0x9a, len: 8 }));
    let (init, action) = init.step(InitEvent::<()>::Bytes8([6, b'I', b'N', b'A', b'2', b'3', b'3', 0]));
    assert!(matches!(action, InitAction::SendCommand(0x12)));
    let (init, action) = init.step(InitEvent::<()>::Completed);
    assert!(matches!(action, InitAction::Delay(100)));
    let (init, action) = init.step(InitEvent::<()>::Completed);
    assert!(matches!(action, InitAction::WriteRegister([0xd4, 0x00, 0x0a])));
    let (init, action) = init.step(InitEvent::<()>::Completed);
    assert!(matches!(action, InitAction::ReadRegister { command: 0xd4, len: 2 }));
    let (init, action) = init.step(InitEvent::<()>::Bytes2([0x00, 0x0a]));
    assert!(matches!(action, InitAction::WriteRegister([0xd0, 0x80, 0x41])));
    let (init, action) = init.step(InitEvent::<()>::Completed);
    assert!(matches!(action, InitAction::ReadRegister { command: 0xd0, len: 2 }));
    let (init, action) = init.step(InitEvent::<()>::Bytes2([0x80, 0x41]));
    assert!(matches!(action, InitAction::Done));
    assert_eq!(init.step, InitStep::Ready);
    let (init2, action) = init.step(InitEvent::<()>::Completed);
    assert!(matches!(action, InitAction::Done));
    assert_eq!(init2, init);
}

#[test]
fn start_up_rejects_other_devices() {
    let (init, _) = ok_start();
    let (init, action) = init.step(InitEvent::<()>::Bytes4([2, b'T', b'X', 0]));
    assert!(matches!(action, InitAction::Fail(Error::DeviceId)));
    assert_eq!(init.step, InitStep::Failed);
    let (init, _) = ok_start();
    let (init, _) = init.step(InitEvent::<()>::Bytes4([2, b'T', b'I', 0]));
    let (init, action) = init.step(InitEvent::<()>::Bytes8([6, b'I', b'N', b'A', b'2', b'2', b'6', 0]));
    assert!(matches!(action, InitAction::Fail(Error::DeviceId)));
    assert!(matches!(init.step(InitEvent::<()>::Completed).1, InitAction::Stopped));
}

#[test]
fn start_up_stops_on_bus_errors_and_ignores_stray_events() {
    let (init, _) = Ina233Init::start::<u8>(1, AdcConfig::default());
    let (same, action) = init.step(InitEvent::<u8>::Completed);
    assert_eq!(same, init);
    assert!(matches!(action, InitAction::ReadRegister { command: 0x99, len: 4 }));
    let (failed, action) = init.step(InitEvent::BusError(42u8));
    assert!(matches!(action, InitAction::Fail(Error::I2C(42))));
    assert_eq!(failed.step, InitStep::Failed);
}

#[test]
fn reset_protocol_skips_identification() {
    let (init, action) = Ina233Init::restart::<()>(Calibration::from(5u16), AdcConfig::from_bits(0x4127));
    assert!(matches!(action, InitAction::SendCommand(0x12)));
    let (init, _) = init.step(InitEvent::<()>::Completed);
    let (_, action) = init.step(InitEvent::<()>::Completed);
    assert!(matches!(action, InitAction::WriteRegister([0xd4, 5, 0])));
}

/// Runs the start-up of `ok_start` up to the read-back of the calibration.
fn up_to_calibration_read_back() -> Ina233Init {
    let (init, _) = ok_start();
    let (init, _) = init.step(InitEvent::<()>::Bytes4([2, b'T', b'I', 0]));
    let (init, _) = init.step(InitEvent::<()>::Bytes8([6, b'I', b'N', b'A', b'2', b'3', b'3', 0]));
    let (init, _) = init.step(InitEvent::<()>::Completed);
    let (init, _) = init.step(InitEvent::<()>::Completed);
    let (init, _) = init.step(InitEvent::<()>::Completed);
    assert_eq!(init.step, InitStep::VerifyCalibration);
    init
}

#[test]
fn start_up_rejects_a_calibration_that_reads_back_otherwise() {
    let init = up_to_calibration_read_back();
    let (failed, action) = init.step(InitEvent::<()>::Bytes2([0x01, 0x0a]));
    assert!(matches!(action, InitAction::Fail(Error::CalibrationMismatch)));
    assert_eq!(failed.step, InitStep::Failed);
}

#[test]
fn start_up_rejects_an_adc_configuration_that_reads_back_otherwise() {
    let init = up_to_calibration_read_back();
    let (init, _) = init.step(InitEvent::<()>::Bytes2([0x00, 0x0a]));
    let (init, action) = init.step(InitEvent::<()>::Completed);
    assert!(matches!(action, InitAction::ReadRegister { command: 0xd0, len: 2 }));
    let (failed, action) = init.step(InitEvent::<()>::Bytes2([0x00, 0x41]));
    assert!(matches!(action, InitAction::Fail(Error::ConfigurationMismatch)));
    assert_eq!(failed.step, InitStep::Failed);
}

#[test]
fn driver_keeps_its_parts() {
    let mut dev = Ina233::from_parts(I2cInterface { i2c: 1u8, address: 0x45 }, 2u8, 96u32, Calibration::from(7u16));
    assert_eq!(dev.address(), 0x45);
    assert_eq!(*dev.lsb(), 96);
    assert_eq!(dev.calibration().into_bits(), 7);
    dev.interface_mut().i2c = 9;
    *dev.delay_mut() = 3;
    assert_eq!(dev.interface_mut().i2c, 9);
    assert_eq!(*dev.delay_mut(), 3);
}
