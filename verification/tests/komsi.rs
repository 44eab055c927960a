use omsi2komsi::komsi::{build_komsi_command, build_komsi_command_u8, KomsiCommandKind};

#[test]
fn command_with_u32_value() {
    assert_eq!(build_komsi_command(KomsiCommandKind::Speed, 42), vec![121u8, 52, 50]);
    assert_eq!(build_komsi_command(KomsiCommandKind::Speed, 0), vec![121u8, 48]);
    assert_eq!(
        build_komsi_command(KomsiCommandKind::MaxSpeed, 4294967295),
        b"s4294967295".to_vec()
    );
}

#[test]
fn command_with_u8_value() {
    assert_eq!(build_komsi_command_u8(KomsiCommandKind::Ignition, 1), b"A1".to_vec());
    assert_eq!(build_komsi_command_u8(KomsiCommandKind::Fuel, 255), b"x255".to_vec());
}

#[test]
fn command_codes_are_those_of_the_protocol() {
    let table = [
        (KomsiCommandKind::EOL, 10u8),
        (KomsiCommandKind::Ignition, b'A'),
        (KomsiCommandKind::Engine, b'B'),
        (KomsiCommandKind::PassengerDoorsOpen, b'C'),
        (KomsiCommandKind::Indicator, b'D'),
        (KomsiCommandKind::FixingBrake, b'E'),
        (KomsiCommandKind::LightsWarning, b'F'),
        (KomsiCommandKind::LightsMain, b'G'),
        (KomsiCommandKind::LightsFrontDoor, b'H'),
        (KomsiCommandKind::LightsSecondDoor, b'I'),
        (KomsiCommandKind::LightsThirdDoor, b'J'),
        (KomsiCommandKind::LightsStopRequest, b'K'),
        (KomsiCommandKind::LightsStopBrake, b'L'),
        (KomsiCommandKind::LightsHighBeam, b'M'),
        (KomsiCommandKind::BatteryLight, b'N'),
        (KomsiCommandKind::SimulatorType, b'O'),
        (KomsiCommandKind::A16, b'P'),
        (KomsiCommandKind::A17, b'Q'),
        (KomsiCommandKind::A18, b'R'),
        (KomsiCommandKind::A19, b'S'),
        (KomsiCommandKind::A20, b'T'),
        (KomsiCommandKind::A21, b'U'),
        (KomsiCommandKind::A22, b'V'),
        (KomsiCommandKind::A23, b'W'),
        (KomsiCommandKind::A24, b'X'),
        (KomsiCommandKind::A25, b'Y'),
        (KomsiCommandKind::A26, b'Z'),
        (KomsiCommandKind::A27, b'a'),
        (KomsiCommandKind::A28, b'b'),
        (KomsiCommandKind::A29, b'c'),
        (KomsiCommandKind::A30, b'd'),
        (KomsiCommandKind::A31, b'e'),
        (KomsiCommandKind::A32, b'f'),
        (KomsiCommandKind::MaxSpeed, b's'),
        (KomsiCommandKind::Gt, b't'),
        (KomsiCommandKind::Gu, b'u'),
        (KomsiCommandKind::Gv, b'v'),
        (KomsiCommandKind::Gw, b'w'),
        (KomsiCommandKind::Fuel, b'x'),
        (KomsiCommandKind::Speed, b'y'),
        (KomsiCommandKind::Gz, b'z'),
    ];
    for (kind, code) in table {
        assert_eq!(kind.code(), code, "{:?}", kind);
        assert_eq!(build_komsi_command(kind, 7), vec![code, b'7']);
    }
    assert_eq!(omsi2komsi::komsi::EOL, 10);
}

#[test]
fn decimal_is_appended_without_padding() {
    let mut buffer = b"v=".to_vec();
    omsi2komsi::komsi::push_decimal(&mut buffer, 0);
    omsi2komsi::komsi::push_decimal(&mut buffer, 10);
    omsi2komsi::komsi::push_decimal(&mut buffer, 4294967295);
    assert_eq!(buffer, b"v=0104294967295".to_vec());
    for value in [0u32, 5, 9, 10, 99, 100, 12345, 1000000, u32::MAX] {
        let mut digits = Vec::new();
        omsi2komsi::komsi::push_decimal(&mut digits, value);
        assert_eq!(digits, value.to_string().into_bytes());
    }
}
