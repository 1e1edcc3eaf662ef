use heater_dac::commands::Dacs;
use heater_dac::dac::{
    command_bytes, reset_bytes, Address, Channel, Channels, ClearCode, CommandType, Configuration,
    DacX578, PowerDownMode, Register, ResetMode, ValidValue, BCAST_ADDR,
};

#[test]
fn addresses_of_the_address_pin() {
    assert_eq!(Address::PinLow.code(), 0x48);
    assert_eq!(Address::PinHigh.code(), 0x4a);
    assert_eq!(Address::PinFloat.code(), 0x4c);
    assert_eq!(Address::from_code(0x4a), Some(Address::PinHigh));
    assert_eq!(Address::from_code(0x49), None);
    assert_eq!(Address::address_range(), 0x48..=0x4c);
    assert_eq!(BCAST_ADDR, 0x47);
}

#[test]
fn channels_by_index() {
    assert_eq!(Channel::from(0), Channel::A);
    assert_eq!(Channel::from(7), Channel::H);
    for i in 0u8..8 {
        assert_eq!(Channel::from(i).code(), i);
    }
    assert_eq!(Channel::All.code(), 0xf);
}

#[test]
#[allow(non_snake_case)]
fn channel_selection_bits() {
    let c = Channels::new().with_A(true).with_H(true).with_C(true);
    assert_eq!(c.into_bits(), 0b1000_0101);
    assert!(c.A() && c.C() && c.H());
    assert!(!c.B() && !c.D() && !c.E() && !c.F() && !c.G());
    let mut c = Channels::from_bits(0xff);
    c.set_D(false);
    assert_eq!(c.into_bits(), 0xf7);
    assert_eq!(u8::from(Channels::from(0x5a)), 0x5a);
}

#[test]
fn command_frames() {
    assert_eq!(
        command_bytes(CommandType::WriteUpdate, Channel::B, 0xabcd),
        [0x31, 0xab, 0xcd]
    );
    assert_eq!(command_bytes(CommandType::Write, Channel::All, 0x0100), [0x0f, 0x01, 0x00]);
    assert_eq!(command_bytes(CommandType::Update, Channel::H, 0), [0x17, 0, 0]);
    assert_eq!(command_bytes(CommandType::WriteUpdateAll, Channel::A, 0xfff0), [0x20, 0xff, 0xf0]);
    assert_eq!(reset_bytes(ResetMode::SetHighSpeed), [0x70, 0x01, 0x00]);
    assert_eq!(reset_bytes(ResetMode::MaintainHighSpeed), [0x70, 0x02, 0x00]);
}

#[test]
fn driver_scales_u16_values_unchanged() {
    let dac = DacX578::new((), Address::PinFloat, 0xffffu16);
    assert_eq!(dac.address(), 0x4c);
    assert_eq!(
        dac.get_command_bytes(CommandType::WriteUpdate, Channel::C, 0x1234),
        [0x32, 0x12, 0x34]
    );
    assert_eq!(
        dac.get_command_bytes(CommandType::WriteUpdate, Channel::B, 0xABC0u16),
        [0x31, 0xab, 0xc0]
    );
    assert_eq!(dac.get_command_bytes(CommandType::Update, Channel::All, 0u16), [0x1f, 0x00, 0x00]);
    assert_eq!(7u16.scale(3), 7);
    assert_eq!(<u16 as ValidValue>::zero(), 0);
    assert_eq!(9u16.invert(0x55), 0x55);
}

#[test]
fn register_addresses() {
    assert_eq!(Register::ChannelInput(Channel::D).into(), 0x03);
    assert_eq!(Register::ChannelDac(Channel::D).into(), 0x13);
    assert_eq!(Register::ChannelDac(Channel::All).into(), 0x1f);
    assert_eq!(Register::PowerDown.into(), 0x40);
    assert_eq!(Register::ClearCode.into(), 0x50);
    assert_eq!(Register::Ldac.into(), 0x60);
}

#[test]
fn configuration_writes() {
    let c = Configuration::PowerDown { mode: PowerDownMode::HighZ, channels: Channels::from_bits(0xff) };
    assert_eq!(c.into(), [0x40, 0x7f, 0xe0]);
    let c = Configuration::PowerDown { mode: PowerDownMode::Normal, channels: Channels::from_bits(0xff) };
    assert_eq!(c.into(), [0x40, 0x1f, 0xe0]);
    assert_eq!(Configuration::ClearCode(ClearCode::MidScale).into(), [0x50, 0x00, 0x10]);
    assert_eq!(Configuration::ClearCode(ClearCode::Disabled).into(), [0x50, 0x00, 0x30]);
    assert_eq!(Configuration::Ldac(Channels::from_bits(0x81)).into(), [0x60, 0x81, 0x00]);
    assert_eq!(
        Configuration::ChannelInput { channel: Channel::E, value: 0x8000 }.into(),
        [0x04, 0x80, 0x00]
    );
    assert_eq!(
        Configuration::ChannelDac { channel: Channel::G, value: 0x0ff0 }.into(),
        [0x16, 0x0f, 0xf0]
    );
}

#[test]
fn configuration_reads() {
    assert_eq!(
        Configuration::from((Register::ChannelDac(Channel::A), 0x123f)),
        Configuration::ChannelDac { channel: Channel::A, value: 0x1230 }
    );
    assert_eq!(
        Configuration::from((Register::PowerDown, 0x6240)),
        Configuration::PowerDown { mode: PowerDownMode::HighZ, channels: Channels::from_bits(0x12) }
    );
    assert_eq!(
        Configuration::from((Register::PowerDown, 0x4000)),
        Configuration::PowerDown { mode: PowerDownMode::KOhm100ToGnd, channels: Channels::from_bits(0) }
    );
    assert_eq!(Configuration::from((Register::ClearCode, 0x0010)), Configuration::ClearCode(ClearCode::MidScale));
    assert_eq!(Configuration::from((Register::ClearCode, 0xffef)), Configuration::ClearCode(ClearCode::FullScale));
    assert_eq!(Configuration::from((Register::Ldac, 0x0cab)), Configuration::Ldac(Channels::from_bits(0x0c)));
    assert_eq!(
        DacX578::<(), u16>::decode_read(Register::ChannelInput(Channel::B), [0xab, 0xcd]),
        Configuration::ChannelInput { channel: Channel::B, value: 0xabc0 }
    );
}

#[test]
fn channel_write_reads_back_upper_bits() {
    let written = Configuration::ChannelDac { channel: Channel::F, value: 0x1237 };
    let bytes: [u8; 3] = written.into();
    let back = DacX578::<(), u16>::decode_read(Register::ChannelDac(Channel::F), [bytes[1], bytes[2]]);
    assert_eq!(back, Configuration::ChannelDac { channel: Channel::F, value: 0x1230 });
    assert_eq!(bytes[0], Register::ChannelDac(Channel::F).into());
}

#[test]
fn settings_read_back_as_written() {
    let written = [
        Configuration::PowerDown { mode: PowerDownMode::HighZ, channels: Channels::from_bits(0xff) },
        Configuration::PowerDown { mode: PowerDownMode::KOhm1ToGnd, channels: Channels::from_bits(0x81) },
        Configuration::ClearCode(ClearCode::MidScale),
        Configuration::ClearCode(ClearCode::Disabled),
        Configuration::Ldac(Channels::from_bits(0x5a)),
    ];
    for c in written {
        let bytes: [u8; 3] = c.into();
        let register = match c {
            Configuration::PowerDown { .. } => Register::PowerDown,
            Configuration::ClearCode(_) => Register::ClearCode,
            _ => Register::Ldac,
        };
        assert_eq!(bytes[0], register.into());
        assert_eq!(DacX578::<(), u16>::decode_read(register, [bytes[1], bytes[2]]), c);
    }
    assert_eq!(
        Configuration::from((Register::ClearCode, 0x0010)),
        Configuration::ClearCode(ClearCode::MidScale)
    );
}

#[test]
fn dacs_and_their_addresses() {
    assert_eq!(Address::from(Dacs::Dac0), Address::PinHigh);
    assert_eq!(Address::from(Dacs::Dac1), Address::PinLow);
    assert_eq!(Address::from(Dacs::Dac2), Address::PinFloat);
    assert_eq!(Dacs::Dac0.code(), 0x4a);
    assert_eq!(Dacs::Dac1.code(), 0x48);
    assert_eq!(Dacs::Dac2.code(), 0x4c);
}
