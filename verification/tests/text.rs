use omsi2komsi::serial::{port_count_line, port_description, PortInfo, PortKind};
use omsi2komsi::text::{append_decimal, read_unsigned, same_text};
use omsi2komsi::vehicle::{init_vehicle_state, vehicle_state_line};

#[test]
fn numbers_are_read_as_the_standard_library_reads_them() {
    let samples = [
        "", "+", "-", "0", "00", "007", "+5", "-5", "++5", "5+", " 5", "5 ", "1_000", "12a",
        "255", "256", "65535", "4294967295", "4294967296", "+4294967295", "99999999999",
        "18446744073709551615", "18446744073709551616", "0x10", "ff", "FF", "７",
        "340282366920938463463374607431768211456",
    ];
    for sample in samples {
        assert_eq!(read_unsigned(sample, 10, u64::MAX), sample.parse::<u64>().ok(), "{:?}", sample);
        assert_eq!(
            read_unsigned(sample, 10, u32::MAX as u64),
            sample.parse::<u32>().ok().map(u64::from),
            "{:?}",
            sample
        );
        assert_eq!(
            read_unsigned(sample, 10, usize::MAX as u64),
            sample.parse::<usize>().ok().map(|n| n as u64),
            "{:?}",
            sample
        );
        assert_eq!(
            read_unsigned(sample, 16, u32::MAX as u64),
            u32::from_str_radix(sample, 16).ok().map(u64::from),
            "{:?}",
            sample
        );
        assert_eq!(
            read_unsigned(sample, 36, u64::MAX),
            u64::from_str_radix(sample, 36).ok(),
            "{:?}",
            sample
        );
        assert_eq!(read_unsigned(sample, 2, 255), u8::from_str_radix(sample, 2).ok().map(u64::from));
    }
    assert_eq!(read_unsigned("7b", 16, 255), Some(123));
    assert_eq!(read_unsigned("zz", 36, u64::MAX), Some(35 * 36 + 35));
    assert_eq!(read_unsigned("100", 10, 99), None);
    assert_eq!(read_unsigned("99", 10, 99), Some(99));
}

#[test]
fn numbers_are_written_in_decimal() {
    for value in [0u64, 1, 9, 10, 11, 99, 100, 101, 4294967295, u64::MAX] {
        let mut line = String::from("n=");
        append_decimal(&mut line, value);
        assert_eq!(line, format!("n={}", value));
    }
}

#[test]
fn texts_are_compared_by_their_characters() {
    assert!(same_text("", ""));
    assert!(same_text("[varlist]", "[varlist]"));
    assert!(!same_text("[varlist]", "[Varlist]"));
    assert!(!same_text("a", "ab"));
}

#[test]
fn state_line_shows_every_field_behind_its_label() {
    let mut s = init_vehicle_state();
    assert_eq!(
        vehicle_state_line(&s),
        "ignition:0 engine:0 indicator:0 fuel:0 warn:0 lights:0 lights-highbeam:0 stop:0 \
         fixingbrake:0 stopbrake:0 doors:0 door1:0 door2:0 speed:0 maxspeed:0  "
    );
    s.ignition = 1;
    s.engine = 1;
    s.indicator = 2;
    s.fuel = 87;
    s.lights_warning = 1;
    s.lights_main = 1;
    s.lights_high_beam = 1;
    s.lights_stop_request = 1;
    s.fixing_brake = 1;
    s.lights_stop_brake = 1;
    s.doors = 1;
    s.lights_front_door = 1;
    s.lights_second_door = 255;
    s.speed = 42;
    s.maxspeed = 50;
    assert_eq!(
        vehicle_state_line(&s),
        "ignition:1 engine:1 indicator:2 fuel:87 warn:1 lights:1 lights-highbeam:1 stop:1 \
         fixingbrake:1 stopbrake:1 doors:1 door1:1 door2:255 speed:42 maxspeed:50  "
    );
}

#[test]
fn port_lines() {
    assert_eq!(port_count_line(0), "Kein port gefunden.");
    assert_eq!(port_count_line(1), "1 port gefunden:");
    assert_eq!(port_count_line(2), "2 ports gefunden:");
    assert_eq!(port_count_line(12), "12 ports gefunden:");
    let usb = PortInfo {
        port_name: String::from("COM4"),
        port_type: PortKind::UsbPort {
            manufacturer: Some(String::from("Arduino LLC")),
            product: None,
        },
    };
    assert_eq!(port_description(&usb), "  COM4 Typ: USB   Hersteller: Arduino LLC   Produkt: ");
    let port = |port_type| PortInfo { port_name: String::from("COM1"), port_type };
    assert_eq!(port_description(&port(PortKind::BluetoothPort)), "  COM1    Typ: Bluetooth");
    assert_eq!(port_description(&port(PortKind::PciPort)), "  COM1    Typ: PCI");
    assert_eq!(port_description(&port(PortKind::Unknown)), "  COM1    Typ: Unknown");
}
