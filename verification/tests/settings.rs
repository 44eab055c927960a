use configparser::ini::Ini;
use omsi2komsi::settings::{read_settings, settings_from_values, SettingsError};

fn config(text: &str) -> Ini {
    let mut ini = Ini::new();
    ini.read(String::from(text)).unwrap();
    ini
}

#[test]
fn settings_are_read_from_their_section() {
    let ini = config("[omsi2komsi]\nportname = COM3\nbaudrate = 115200\nengineonvalue = 2\n");
    let settings = read_settings(&ini).unwrap();
    assert_eq!(settings.portname, "COM3");
    assert_eq!(settings.baudrate, 115200);
    assert_eq!(settings.engineonvalue, 2);
}

#[test]
fn keys_and_section_are_found_whatever_their_case() {
    let ini = config("[Omsi2Komsi]\nPortName = COM3\nBAUDRATE = 9600\nEngineOnValue = 1\n");
    let settings = read_settings(&ini).unwrap();
    assert_eq!(settings.portname, "COM3");
    assert_eq!(settings.baudrate, 9600);
    assert_eq!(settings.engineonvalue, 1);
}

#[test]
fn missing_values_are_named() {
    assert_eq!(read_settings(&config("")).unwrap_err(), SettingsError::MissingBaudRate);
    assert_eq!(
        read_settings(&config("[other]\nbaudrate = 1\n")).unwrap_err(),
        SettingsError::MissingBaudRate
    );
    assert_eq!(
        read_settings(&config("[omsi2komsi]\nbaudrate = 9600\n")).unwrap_err(),
        SettingsError::MissingPortName
    );
    assert_eq!(
        read_settings(&config("[omsi2komsi]\nbaudrate = 9600\nportname\n")).unwrap_err(),
        SettingsError::MissingPortName
    );
    assert_eq!(
        read_settings(&config("[omsi2komsi]\nbaudrate = 9600\nportname = COM3\n")).unwrap_err(),
        SettingsError::MissingEngineOnValue
    );
}

#[test]
fn values_that_are_no_numbers_are_named() {
    assert_eq!(
        read_settings(&config("[omsi2komsi]\nbaudrate = fast\nportname = COM3\n")).unwrap_err(),
        SettingsError::BadBaudRate
    );
    assert_eq!(
        read_settings(&config(
            "[omsi2komsi]\nbaudrate = 9600\nportname = COM3\nengineonvalue = 1.5\n"
        ))
        .unwrap_err(),
        SettingsError::BadEngineOnValue
    );
}

#[test]
fn of_a_number_out_of_range_the_lowest_bits_are_taken() {
    let ini = config("[omsi2komsi]\nportname = COM3\nbaudrate = 4294967297\nengineonvalue = 258\n");
    let settings = read_settings(&ini).unwrap();
    assert_eq!(settings.baudrate, 4294967297i64 as u32);
    assert_eq!(settings.baudrate, 1);
    assert_eq!(settings.engineonvalue, 2);
    let ini = config("[omsi2komsi]\nportname = COM3\nbaudrate = -1\nengineonvalue = -1\n");
    let settings = read_settings(&ini).unwrap();
    assert_eq!(settings.baudrate, u32::MAX);
    assert_eq!(settings.engineonvalue, 255);
}

#[test]
fn settings_from_plain_values() {
    let settings =
        settings_from_values(Ok(Some(19200)), Some(String::from("/dev/ttyACM0")), Ok(Some(1)))
            .unwrap();
    assert_eq!(settings.portname, "/dev/ttyACM0");
    assert_eq!(settings.baudrate, 19200);
    assert_eq!(settings.engineonvalue, 1);
    assert_eq!(
        settings_from_values(Err(()), None, Err(())).unwrap_err(),
        SettingsError::BadBaudRate
    );
    assert_eq!(
        settings_from_values(Ok(None), None, Err(())).unwrap_err(),
        SettingsError::MissingBaudRate
    );
    assert_eq!(
        settings_from_values(Ok(Some(1)), None, Err(())).unwrap_err(),
        SettingsError::MissingPortName
    );
    assert_eq!(
        settings_from_values(Ok(Some(1)), Some(String::new()), Err(())).unwrap_err(),
        SettingsError::BadEngineOnValue
    );
    assert_eq!(
        settings_from_values(Ok(Some(1)), Some(String::new()), Ok(None)).unwrap_err(),
        SettingsError::MissingEngineOnValue
    );
    let low = settings_from_values(Ok(Some(i64::MIN)), Some(String::new()), Ok(Some(i64::MAX)))
        .unwrap();
    assert_eq!(low.baudrate, i64::MIN as u32);
    assert_eq!(low.engineonvalue, i64::MAX as u8);
}

#[test]
fn values_are_taken_from_the_default_section_where_the_configuration_cascades() {
    let mut ini = Ini::new();
    ini.set_cascade_defaults(true);
    ini.read(String::from(
        "baudrate = 9600\nengineonvalue = 3\n[omsi2komsi]\nportname = COM3\nengineonvalue = 1\n",
    ))
    .unwrap();
    let settings = read_settings(&ini).unwrap();
    assert_eq!(settings.portname, "COM3");
    assert_eq!(settings.baudrate, 9600);
    assert_eq!(settings.engineonvalue, 1);
}

#[test]
fn a_default_section_that_is_never_found_again_gives_an_error() {
    let mut ini = Ini::new();
    ini.set_cascade_defaults(true);
    ini.set_default_section("Defaults");
    ini.read(String::from("[omsi2komsi]\nportname = COM3\n")).unwrap();
    assert_eq!(read_settings(&ini).unwrap_err(), SettingsError::BadDefaultSection);
}

#[test]
fn a_default_section_with_capitals_does_no_harm_where_it_is_found_again() {
    // names are taken as they stand
    let mut ini = Ini::new_cs();
    ini.set_cascade_defaults(true);
    ini.set_default_section("Defaults");
    ini.read(String::from("[omsi2komsi]\nportname = COM3\n")).unwrap();
    assert_eq!(read_settings(&ini).unwrap_err(), SettingsError::MissingBaudRate);
    // the configuration does not fall back on it
    let mut ini = Ini::new();
    ini.set_default_section("Defaults");
    ini.read(String::from("[omsi2komsi]\nportname = COM3\n")).unwrap();
    assert_eq!(read_settings(&ini).unwrap_err(), SettingsError::MissingBaudRate);
    // its name is in lower case
    let mut ini = Ini::new();
    ini.set_cascade_defaults(true);
    ini.set_default_section("defaults");
    ini.read(String::from("baudrate = 1200\n[omsi2komsi]\nportname = COM3\n")).unwrap();
    assert_eq!(read_settings(&ini).unwrap_err(), SettingsError::MissingEngineOnValue);
}
