use heater_dac::registers::{
    from_bits_u16, from_bits_u64, to_bits_u16, to_bits_u64, AdcConfig, AdcMode, Averages,
    Calibration, ConversionTime, ConvertRaw, LoadCurrent, LoadPower, LoadVoltage, MeasureActive,
    MfrId, MfrModel, MfrRevision, Register, ShuntVoltage,
};

#[test]
fn test_adc_config_conversion() {
    let config = AdcConfig::default();
    let raw = config.to_raw();
    println!("Raw ADC Config: {:04x}", u16::from_le_bytes(raw));
}

#[test]
fn adc_config_default_word() {
    let config = AdcConfig::default();
    assert_eq!(config.into_bits(), 0x4000);
    assert_eq!(config.to_raw(), [0x00, 0x40]);
    assert_eq!(config.mode(), AdcMode::PowerDown);
    assert_eq!(config.vshunt_conv_time(), ConversionTime::Us140);
    assert_eq!(config.vbus_conv_time(), ConversionTime::Us140);
    assert_eq!(config.averaging(), Averages::Avg1);
    assert_eq!(AdcConfig::new(), AdcConfig::default());
}

#[test]
fn adc_config_setters_touch_one_field() {
    let config = AdcConfig::default()
        .with_vbus_conv_time(ConversionTime::Ms4_156)
        .with_vshunt_conv_time(ConversionTime::Ms4_156);
    assert_eq!(config.into_bits(), 0x41b0);
    let config = config.with_averaging(Averages::Avg1024).with_mode(AdcMode::Triggered(MeasureActive::Bus));
    assert_eq!(config.into_bits(), 0x4fb2);
    assert_eq!(config.averaging(), Averages::Avg1024);
    assert_eq!(config.mode(), AdcMode::Triggered(MeasureActive::Bus));
    assert_eq!(config.vbus_conv_time(), ConversionTime::Ms4_156);
    let mut c = AdcConfig::from_bits(0);
    c.set_mode(AdcMode::PowerDown);
    c.set_averaging(Averages::Avg4);
    c.set_vbus_conv_time(ConversionTime::Us204);
    c.set_vshunt_conv_time(ConversionTime::Us332);
    assert_eq!(c.into_bits(), 0b001_001_010_000);
    assert_eq!(u16::from(AdcConfig::from(0x1234u16)), 0x1234);
}

#[test]
fn adc_config_raw_round_trip() {
    let c = AdcConfig::from_raw([0xb7, 0x41]);
    assert_eq!(c.into_bits(), 0x41b7);
    assert_eq!(c.to_raw(), [0xb7, 0x41]);
    assert_eq!(AdcConfig::address(), 0xd0);
}

#[test]
fn adc_mode_codes() {
    assert_eq!(AdcMode::into_u8(AdcMode::PowerDown), 0);
    assert_eq!(AdcMode::into_u8(AdcMode::Triggered(MeasureActive::Shunt)), 1);
    assert_eq!(AdcMode::into_u8(AdcMode::Continuous(MeasureActive::Both)), 7);
    assert_eq!(AdcMode::from_u8(0b100), AdcMode::PowerDown);
    assert_eq!(AdcMode::from_u8(0b1110), AdcMode::Continuous(MeasureActive::Bus));
    assert_eq!(AdcMode::default(), AdcMode::Continuous(MeasureActive::Both));
    for v in 0u8..=255 {
        let m = AdcMode::from_u8(v);
        let back = AdcMode::into_u8(m);
        if v % 8 == 4 {
            assert_eq!(back, 0);
        } else {
            assert_eq!(back, v % 8);
        }
        assert_eq!(AdcMode::from_u8(back), m);
    }
}

#[test]
fn conversion_time_and_averages_codes() {
    assert_eq!(ConversionTime::from_u8(0b1010), ConversionTime::Us332);
    assert_eq!(ConversionTime::into_u8(ConversionTime::Ms8_244), 7);
    assert_eq!(Averages::from_u8(0xff), Averages::Avg1024);
    assert_eq!(Averages::into_u8(Averages::Avg64), 3);
    for v in 0u8..=255 {
        assert_eq!(ConversionTime::into_u8(ConversionTime::from_u8(v)), v % 8);
        assert_eq!(Averages::into_u8(Averages::from_u8(v)), v % 8);
    }
    assert_eq!(ConversionTime::default(), ConversionTime::Ms1_1);
    assert_eq!(Averages::default(), Averages::Avg1);
}

#[test]
fn measurement_registers_are_little_endian() {
    assert_eq!(LoadVoltage::from_raw([0x34, 0x12]).0, 0x1234);
    assert_eq!(LoadCurrent::from_raw([0xff, 0xff]).0, -1);
    assert_eq!(ShuntVoltage::from_raw([0x00, 0x80]).0, i16::MIN);
    assert_eq!(LoadPower::from_raw([0x01, 0x02]).0, 0x0201);
    assert_eq!(LoadCurrent::from(-2).to_raw(), [0xfe, 0xff]);
    assert_eq!(LoadVoltage::address(), 0x88);
    assert_eq!(ShuntVoltage::address(), 0xd1);
    assert_eq!(LoadCurrent::address(), 0x89);
    assert_eq!(LoadPower::address(), 0x97);
}

#[test]
fn manufacturer_registers() {
    let id = MfrId::from_raw([2, b'T', b'I', 0]);
    assert_eq!(id.id(), *b"TI");
    assert_eq!(id.to_raw(), [2, b'T', b'I', 0]);
    assert_eq!(MfrId::default().id(), *b"TI");
    assert_eq!(MfrId::new().into_bits(), 0x0049_5402);
    assert_eq!(MfrRevision::default().revision(), *b"A0");
    let model = MfrModel::from_raw([6, b'I', b'N', b'A', b'2', b'3', b'3', 0]);
    assert_eq!(model.model(), *b"INA233");
    assert_eq!(model.bytes(), 6);
    assert_eq!(MfrModel::default().model(), *b"INA233");
    assert_eq!(MfrModel::default().bytes(), 6);
    let renamed = model.with_model(*b"INA226").with_bytes(5);
    assert_eq!(renamed.model(), *b"INA226");
    assert_eq!(renamed.bytes(), 5);
    assert_eq!(MfrId::address(), 0x99);
    assert_eq!(MfrModel::address(), 0x9a);
    assert_eq!(MfrRevision::address(), 0x9b);
}

#[test]
fn calibration_register() {
    assert_eq!(Calibration::default().into_bits(), 1);
    assert_eq!(Calibration::default().calibration(), 1);
    assert_eq!(Calibration::from(0x7fffu16).calibration(), -1);
    assert_eq!(Calibration::from(0x8005u16).calibration(), 5);
    let c = Calibration::from(0x8000u16).with_calibration(-16384);
    assert_eq!(c.into_bits(), 0xc000);
    assert_eq!(c.calibration(), -16384);
    assert!(Calibration::new().with_calibration_checked(16384).is_err());
    assert!(Calibration::new().with_calibration_checked(-16385).is_err());
    let mut c = Calibration::new();
    assert!(c.set_calibration_checked(20000).is_err());
    assert_eq!(c.into_bits(), 1);
    assert!(c.set_calibration_checked(2560).is_ok());
    assert_eq!(c.calibration(), 2560);
    assert_eq!(Calibration::address(), 0xd4);
    assert_eq!(Calibration::from_raw([0x00, 0x0a]).to_raw(), [0x00, 0x0a]);
}

#[test]
fn bit_helpers() {
    assert_eq!(from_bits_u16(0x4954), [0x54, 0x49]);
    assert_eq!(to_bits_u16([0x54, 0x49]), 0x4954);
    assert_eq!(from_bits_u64(0xffee_3332_414e_4906), [0x06, 0x49, 0x4e, 0x41, 0x32, 0x33]);
    assert_eq!(to_bits_u64(*b"INA233"), 0x0000_3333_3241_4e49);
    assert_eq!(from_bits_u64(to_bits_u64(*b"INA233")), *b"INA233");
}
