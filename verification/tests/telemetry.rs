use heater_dac::telemetry::{after_write, LinkNext, Measurement, WriteOutcome};

#[test]
fn measurement_lines() {
    let m = Measurement { source: 0x40, voltage: 12034, current: -517, power: 6221, shunt: 0 };
    assert_eq!(m.to_line(), b"64,12034,-517,6221,0\r\n".to_vec());
    let m = Measurement { source: 255, voltage: u32::MAX, current: i32::MIN, power: 0, shunt: i32::MAX };
    assert_eq!(
        String::from_utf8(m.to_line()).unwrap(),
        format!("255,{},{},0,{}\r\n", u32::MAX, i32::MIN, i32::MAX)
    );
}

#[test]
fn link_after_a_write() {
    assert_eq!(after_write(WriteOutcome::Sent), LinkNext::NextMeasurement);
    assert_eq!(after_write(WriteOutcome::BufferOverflow), LinkNext::ReportOverflow);
    assert_eq!(after_write(WriteOutcome::Disabled), LinkNext::AwaitConnection);
}
