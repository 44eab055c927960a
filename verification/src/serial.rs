//! Finding the serial port of the instrument cluster among the ports of the
//! machine.

use vstd::prelude::*;
use vstd::string::StringExecFns;
use crate::opts::Opts;
use crate::text::{append_decimal, decimal_text, lowercase, to_lowercase};

verus! {

/// How a serial port is connected.
#[derive(Debug)]
pub enum PortKind {
    UsbPort { manufacturer: Option<String>, product: Option<String> },
    PciPort,
    BluetoothPort,
    Unknown,
}

/// A serial port of the machine.
#[derive(Debug)]
pub struct PortInfo {
    pub port_name: String,
    pub port_type: PortKind,
}

/// Whether `needle` stands somewhere in `text`.
pub open spec fn is_infix(needle: Seq<char>, text: Seq<char>) -> bool {
    exists|i: int|
        0 <= i && i + needle.len() <= text.len() && #[trigger] text.subrange(
            i,
            i + needle.len(),
        ) == needle
}

/// Calls `str::contains` with a text as the pattern, which says whether the
/// pattern matches a part of the text.
#[verifier::external_body]
fn contains(text: &str, needle: &str) -> (found: bool)
    ensures
        found == is_infix(needle@, text@),
{
    text.contains(needle)
}

/// Whether `needle` stands somewhere in `text`.
pub fn text_holds(text: &str, needle: &str) -> (found: bool)
    ensures
        found == is_infix(needle@, text@),
{
    contains(text, needle)
}

/// The text of an optional value: empty if there is none.
pub open spec fn text_or_empty(value: Option<String>) -> Seq<char> {
    match value {
        Some(text) => text@,
        None => Seq::empty(),
    }
}

/// The line by which a port is found: its name, its manufacturer and its
/// product, separated by blanks.
pub open spec fn port_line(name: Seq<char>, manufacturer: Seq<char>, product: Seq<char>) -> Seq<
    char,
> {
    name + seq![' '] + manufacturer + seq![' '] + product
}

/// Whether a port is the one looked for: it is connected via USB, and its
/// line holds `find`, the case of the letters not counting.
pub open spec fn port_matches(port: PortInfo, find: Seq<char>) -> bool {
    match port.port_type {
        PortKind::UsbPort { manufacturer, product } => is_infix(
            lowercase(find),
            lowercase(
                port_line(port.port_name@, text_or_empty(manufacturer), text_or_empty(product)),
            ),
        ),
        _ => false,
    }
}

fn append_or_empty(line: &mut String, value: &Option<String>)
    ensures
        final(line)@ == old(line)@ + text_or_empty(*value),
{
    match value {
        Some(text) => {
            line.append(text.as_str());
        },
        None => {},
    }
}

/// Whether `port` is the one that `find` asks for.
pub fn matches_port(port: &PortInfo, find: &str) -> (found: bool)
    ensures
        found == port_matches(*port, find@),
{
    match &port.port_type {
        PortKind::UsbPort { manufacturer, product } => {
            let mut zeile = port.port_name.clone();
            proof {
                reveal_strlit(" ");
            }
            zeile.append(" ");
            append_or_empty(&mut zeile, manufacturer);
            zeile.append(" ");
            append_or_empty(&mut zeile, product);
            assert(zeile@ == port_line(
                port.port_name@,
                text_or_empty(*manufacturer),
                text_or_empty(*product),
            ));
            let a = to_lowercase(zeile.as_str());
            let b = to_lowercase(find);
            text_holds(a.as_str(), b.as_str())
        },
        PortKind::BluetoothPort => false,
        PortKind::PciPort => false,
        PortKind::Unknown => false,
    }
}

/// The name of the first port that `opts.find` asks for, or the message
/// that there is none. Without a text to find the port by there is none;
/// then no port must be connected via USB.
pub fn find_serial_comports(ports: &Vec<PortInfo>, opts: &Opts) -> (found: Result<
    String,
    &'static str,
>)
    requires
        opts.find is Some || forall|i: int|
            0 <= i < ports@.len() ==> !(#[trigger] ports@[i].port_type is UsbPort),
    ensures
        match found {
            Ok(name) => opts.find is Some && exists|i: int|
                {
                    &&& 0 <= i < ports@.len()
                    &&& port_matches(ports@[i], opts.find->0@)
                    &&& name@ == ports@[i].port_name@
                    &&& forall|j: int| 0 <= j < i ==> !port_matches(ports@[j], opts.find->0@)
                },
            Err(message) => {
                &&& message@ == "Nicht gefunden."@
                &&& opts.find is Some ==> forall|j: int|
                    0 <= j < ports@.len() ==> !port_matches(ports@[j], opts.find->0@)
            },
        },
{
    let find = match &opts.find {
        Some(text) => text.as_str(),
        None => {
            return Err("Nicht gefunden.");
        },
    };
    let mut i: usize = 0;
    while i < ports.len()
        invariant
            i <= ports@.len(),
            opts.find is Some,
            find@ == opts.find->0@,
            forall|j: int| 0 <= j < i ==> !port_matches(ports@[j], find@),
        decreases ports@.len() - i,
    {
        if matches_port(&ports[i], find) {
            return Ok(ports[i].port_name.clone());
        }
        i += 1;
    }
    Err("Nicht gefunden.")
}

/// The line that says how many ports were found.
pub open spec fn port_count_text(count: nat) -> Seq<char> {
    if count == 0 {
        "Kein port gefunden."@
    } else if count == 1 {
        "1 port gefunden:"@
    } else {
        decimal_text(count) + " ports gefunden:"@
    }
}

/// Writes the line that says how many ports were found.
pub fn port_count_line(count: usize) -> (line: String)
    ensures
        line@ == port_count_text(count as nat),
{
    if count == 0 {
        String::from_str("Kein port gefunden.")
    } else if count == 1 {
        String::from_str("1 port gefunden:")
    } else {
        let mut line = String::new();
        append_decimal(&mut line, count as u64);
        line.append(" ports gefunden:");
        line
    }
}

/// The line that describes a port: its name and how it is connected, and
/// for a port on USB who made it and what it is.
pub open spec fn port_text(port: PortInfo) -> Seq<char> {
    "  "@ + port.port_name@ + (match port.port_type {
        PortKind::UsbPort { manufacturer, product } => " Typ: USB"@ + "   Hersteller: "@
            + text_or_empty(manufacturer) + "   Produkt: "@ + text_or_empty(product),
        PortKind::BluetoothPort => "    Typ: Bluetooth"@,
        PortKind::PciPort => "    Typ: PCI"@,
        PortKind::Unknown => "    Typ: Unknown"@,
    })
}

/// Writes the line that describes a port.
pub fn port_description(port: &PortInfo) -> (line: String)
    ensures
        line@ == port_text(*port),
{
    let mut line = String::from_str("  ");
    line.append(port.port_name.as_str());
    match &port.port_type {
        PortKind::UsbPort { manufacturer, product } => {
            let ghost start = line@;
            line.append(" Typ: USB");
            line.append("   Hersteller: ");
            append_or_empty(&mut line, manufacturer);
            line.append("   Produkt: ");
            append_or_empty(&mut line, product);
            assert(line@ == start + (" Typ: USB"@ + "   Hersteller: "@ + text_or_empty(
                *manufacturer,
            ) + "   Produkt: "@ + text_or_empty(*product)));
        },
        PortKind::BluetoothPort => {
            line.append("    Typ: Bluetooth");
        },
        PortKind::PciPort => {
            line.append("    Typ: PCI");
        },
        PortKind::Unknown => {
            line.append("    Typ: Unknown");
        },
    }
    line
}

} // verus!
