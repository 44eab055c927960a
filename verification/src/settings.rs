//! The settings of the bridge as its configuration file gives them.

use vstd::prelude::*;
use configparser::ini::Ini;
use crate::text::{lowercase, same_text, to_lowercase};

verus! {

/// A parsed configuration file of the `configparser` crate.
#[verifier::external_type_specification]
#[verifier::external_body]
pub struct ExIni(Ini);

/// The section of the configuration file that holds the settings.
pub const SECTION: &'static str = "omsi2komsi";

/// The texts that a configuration hands out: for a section and a key, the
/// value that `Ini::get` finds there.
pub uninterp spec fn ini_texts(config: Ini) -> Map<(Seq<char>, Seq<char>), Seq<char>>;

/// The numbers that a configuration hands out: for a section and a key, what
/// `Ini::getint` makes of the value there, `None` if the value is no number.
pub uninterp spec fn ini_numbers(config: Ini) -> Map<(Seq<char>, Seq<char>), Option<i64>>;

/// How a configuration looks values up, as `Ini::defaults` hands it out:
/// whether it falls back on its default section, whether it tells capital
/// letters from small ones, and the name of its default section.
pub uninterp spec fn ini_lookup(config: Ini) -> (bool, bool, Seq<char>);

/// Whether a configuration that falls back on its default section finds
/// that section again: it does where it takes names as they stand, or where
/// the name of the default section is in lower case already.
pub open spec fn lookup_ends(config: Ini) -> bool {
    let (cascades, case_sensitive, default_section) = ini_lookup(config);
    !cascades || case_sensitive || lowercase(default_section) == default_section
}

/// Calls `Ini::defaults`, which hands out a copy of how the configuration
/// looks values up, and picks from it whether the configuration falls back
/// on its default section, whether it tells capital letters from small
/// ones, and the name of its default section. The contract names these
/// `ini_lookup`.
#[verifier::external_body]
fn ini_defaults(config: &Ini) -> (lookup: (bool, bool, String))
    ensures
        lookup.0 == ini_lookup(*config).0,
        lookup.1 == ini_lookup(*config).1,
        lookup.2@ == ini_lookup(*config).2,
{
    let defaults = config.defaults();
    (defaults.cascade_defaults, defaults.case_sensitive, defaults.default_section)
}

/// Calls `Ini::get`, which looks a value up by section and key and hands
/// out a copy of it. The contract names what it finds `ini_texts`.
#[verifier::external_body]
fn ini_get(config: &Ini, section: &str, key: &str) -> (value: Option<String>)
    ensures
        value is Some <==> ini_texts(*config).contains_key((section@, key@)),
        value matches Some(text) ==> text@ == ini_texts(*config)[(section@, key@)],
{
    config.get(section, key)
}

/// Calls `Ini::getint`, which looks a value up by section and key and reads
/// it as an `i64`: `Ok(None)` if there is no value, an error if the value
/// is no number. The contract names what it finds `ini_numbers`; the text of
/// the error is dropped. Where there is no value and the configuration
/// falls back on its default section, `Ini::getint` asks itself again under
/// the name of that section, folded to lower case unless names are taken as
/// they stand, and goes on so until the folded name is the name of the
/// default section. The contract leaves out the configurations on which
/// that never is so.
#[verifier::external_body]
fn ini_getint(config: &Ini, section: &str, key: &str) -> (value: Result<Option<i64>, ()>)
    requires
        lookup_ends(*config),
    ensures
        (value matches Ok(found) && found is None) <==> !ini_numbers(*config).contains_key(
            (section@, key@),
        ),
        value matches Ok(Some(number)) ==> ini_numbers(*config)[(section@, key@)] == Some(number),
        value is Err ==> ini_numbers(*config)[(section@, key@)] is None,
{
    match config.getint(section, key) {
        Ok(number) => Ok(number),
        Err(_) => Err(()),
    }
}

/// The settings of the bridge.
#[derive(Debug)]
pub struct PluginSettings {
    /// The name of the serial port.
    pub portname: String,
    pub baudrate: u32,
    /// The value of the battery signal that means that the engine runs.
    pub engineonvalue: u8,
}

/// Why a configuration gives no settings.
#[derive(Clone, Copy, Debug, PartialEq, Eq, Structural)]
pub enum SettingsError {
    /// The configuration falls back on a default section whose name it folds
    /// to lower case and so never finds again.
    BadDefaultSection,
    /// There is no baud rate.
    MissingBaudRate,
    /// The baud rate is no number.
    BadBaudRate,
    /// There is no port name.
    MissingPortName,
    /// There is no value for the running engine.
    MissingEngineOnValue,
    /// The value for the running engine is no number.
    BadEngineOnValue,
}

/// The lowest 32 bits of a number.
pub open spec fn low_u32(number: i64) -> u32 {
    (number % 0x1_0000_0000) as u32
}

/// The lowest 8 bits of a number.
pub open spec fn low_u8(number: i64) -> u8 {
    (number % 0x100) as u8
}

/// The settings that the three values stand for, or the first thing that is
/// wrong with them: the baud rate is looked at first, then the port name,
/// then the value for the running engine. Of a number that is too large or
/// negative the lowest bits are taken.
pub open spec fn settings_of(
    baudrate: Result<Option<i64>, ()>,
    portname: Option<Seq<char>>,
    engineonvalue: Result<Option<i64>, ()>,
) -> Result<(Seq<char>, u32, u8), SettingsError> {
    match baudrate {
        Err(_) => Err(SettingsError::BadBaudRate),
        Ok(None) => Err(SettingsError::MissingBaudRate),
        Ok(Some(baud)) => match portname {
            None => Err(SettingsError::MissingPortName),
            Some(port) => match engineonvalue {
                Err(_) => Err(SettingsError::BadEngineOnValue),
                Ok(None) => Err(SettingsError::MissingEngineOnValue),
                Ok(Some(engine)) => Ok((port, low_u32(baud), low_u8(engine))),
            },
        },
    }
}

/// What `Ini::getint` answers for a section and a key.
pub open spec fn number_at(config: Ini, section: Seq<char>, key: Seq<char>) -> Result<
    Option<i64>,
    (),
> {
    if !ini_numbers(config).contains_key((section, key)) {
        Ok(None)
    } else {
        match ini_numbers(config)[(section, key)] {
            Some(number) => Ok(Some(number)),
            None => Err(()),
        }
    }
}

/// What `Ini::get` answers for a section and a key.
pub open spec fn text_at(config: Ini, section: Seq<char>, key: Seq<char>) -> Option<Seq<char>> {
    if ini_texts(config).contains_key((section, key)) {
        Some(ini_texts(config)[(section, key)])
    } else {
        None
    }
}

fn low_u32_of(number: i64) -> (low: u32)
    ensures
        low == low_u32(number),
{
    let rest: i64 = number % 0x1_0000_0000;
    if rest < 0 {
        (rest + 0x1_0000_0000) as u32
    } else {
        rest as u32
    }
}

fn low_u8_of(number: i64) -> (low: u8)
    ensures
        low == low_u8(number),
{
    let rest: i64 = number % 0x100;
    if rest < 0 {
        (rest + 0x100) as u8
    } else {
        rest as u8
    }
}

/// Makes the settings of the three values of the configuration, or says
/// what is wrong with them.
pub fn settings_from_values(
    baudrate: Result<Option<i64>, ()>,
    portname: Option<String>,
    engineonvalue: Result<Option<i64>, ()>,
) -> (settings: Result<PluginSettings, SettingsError>)
    ensures
        match settings_of(
            baudrate,
            match portname {
                Some(port) => Some(port@),
                None => None,
            },
            engineonvalue,
        ) {
            Ok((port, baud, engine)) => settings matches Ok(s) && s.portname@ == port && s.baudrate
                == baud && s.engineonvalue == engine,
            Err(error) => settings == Err::<PluginSettings, SettingsError>(error),
        },
{
    let baud = match baudrate {
        Err(_) => {
            return Err(SettingsError::BadBaudRate);
        },
        Ok(None) => {
            return Err(SettingsError::MissingBaudRate);
        },
        Ok(Some(baud)) => baud,
    };
    let port = match portname {
        None => {
            return Err(SettingsError::MissingPortName);
        },
        Some(port) => port,
    };
    let engine = match engineonvalue {
        Err(_) => {
            return Err(SettingsError::BadEngineOnValue);
        },
        Ok(None) => {
            return Err(SettingsError::MissingEngineOnValue);
        },
        Ok(Some(engine)) => engine,
    };
    Ok(PluginSettings { portname: port, baudrate: low_u32_of(baud), engineonvalue: low_u8_of(engine) })
}

/// Reads the settings from a parsed configuration file: `baudrate`,
/// `portname` and `engineonvalue` in the section `omsi2komsi`. A
/// configuration that cannot find its own default section again gives no
/// settings.
pub fn read_settings(config: &Ini) -> (settings: Result<PluginSettings, SettingsError>)
    ensures
        !lookup_ends(*config) ==> settings == Err::<PluginSettings, SettingsError>(
            SettingsError::BadDefaultSection,
        ),
        lookup_ends(*config) ==> match settings_of(
            number_at(*config, SECTION@, "baudrate"@),
            text_at(*config, SECTION@, "portname"@),
            number_at(*config, SECTION@, "engineonvalue"@),
        ) {
            Ok((port, baud, engine)) => settings matches Ok(s) && s.portname@ == port && s.baudrate
                == baud && s.engineonvalue == engine,
            Err(error) => settings == Err::<PluginSettings, SettingsError>(error),
        },
{
    let (cascades, case_sensitive, default_section) = ini_defaults(config);
    if cascades && !case_sensitive {
        let folded = to_lowercase(default_section.as_str());
        if !same_text(folded.as_str(), default_section.as_str()) {
            return Err(SettingsError::BadDefaultSection);
        }
    }
    let baudrate = ini_getint(config, SECTION, "baudrate");
    let portname = ini_get(config, SECTION, "portname");
    let engineonvalue = ini_getint(config, SECTION, "engineonvalue");
    settings_from_values(baudrate, portname, engineonvalue)
}

} // verus!
