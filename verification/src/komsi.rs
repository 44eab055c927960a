//! The wire protocol: one command byte, then the value in ASCII decimal.

use vstd::prelude::*;

verus! {

/// The byte that ends a frame.
pub const EOL: u8 = 10;

/// The commands that the instrument cluster understands.
#[derive(Clone, Copy, Debug, PartialEq, Eq, Structural)]
pub enum KomsiCommandKind {
    EOL,
    Ignition,
    Engine,
    PassengerDoorsOpen,
    Indicator,
    FixingBrake,
    LightsWarning,
    LightsMain,
    LightsFrontDoor,
    LightsSecondDoor,
    LightsThirdDoor,
    LightsStopRequest,
    LightsStopBrake,
    LightsHighBeam,
    BatteryLight,
    SimulatorType,
    A16,
    A17,
    A18,
    A19,
    A20,
    A21,
    A22,
    A23,
    A24,
    A25,
    A26,
    A27,
    A28,
    A29,
    A30,
    A31,
    A32,
    MaxSpeed,
    Gt,
    Gu,
    Gv,
    Gw,
    Fuel,
    Speed,
    Gz,
}

impl KomsiCommandKind {
    /// The byte that stands for the command on the wire.
    pub open spec fn code_spec(self) -> u8 {
        match self {
            KomsiCommandKind::EOL => 10,
            KomsiCommandKind::Ignition => 65,
            KomsiCommandKind::Engine => 66,
            KomsiCommandKind::PassengerDoorsOpen => 67,
            KomsiCommandKind::Indicator => 68,
            KomsiCommandKind::FixingBrake => 69,
            KomsiCommandKind::LightsWarning => 70,
            KomsiCommandKind::LightsMain => 71,
            KomsiCommandKind::LightsFrontDoor => 72,
            KomsiCommandKind::LightsSecondDoor => 73,
            KomsiCommandKind::LightsThirdDoor => 74,
            KomsiCommandKind::LightsStopRequest => 75,
            KomsiCommandKind::LightsStopBrake => 76,
            KomsiCommandKind::LightsHighBeam => 77,
            KomsiCommandKind::BatteryLight => 78,
            KomsiCommandKind::SimulatorType => 79,
            KomsiCommandKind::A16 => 80,
            KomsiCommandKind::A17 => 81,
            KomsiCommandKind::A18 => 82,
            KomsiCommandKind::A19 => 83,
            KomsiCommandKind::A20 => 84,
            KomsiCommandKind::A21 => 85,
            KomsiCommandKind::A22 => 86,
            KomsiCommandKind::A23 => 87,
            KomsiCommandKind::A24 => 88,
            KomsiCommandKind::A25 => 89,
            KomsiCommandKind::A26 => 90,
            KomsiCommandKind::A27 => 97,
            KomsiCommandKind::A28 => 98,
            KomsiCommandKind::A29 => 99,
            KomsiCommandKind::A30 => 100,
            KomsiCommandKind::A31 => 101,
            KomsiCommandKind::A32 => 102,
            KomsiCommandKind::MaxSpeed => 115,
            KomsiCommandKind::Gt => 116,
            KomsiCommandKind::Gu => 117,
            KomsiCommandKind::Gv => 118,
            KomsiCommandKind::Gw => 119,
            KomsiCommandKind::Fuel => 120,
            KomsiCommandKind::Speed => 121,
            KomsiCommandKind::Gz => 122,
        }
    }

    /// The byte that stands for the command on the wire.
    #[verifier::when_used_as_spec(code_spec)]
    pub fn code(self) -> (byte: u8)
        ensures
            byte == self.code_spec(),
    {
        match self {
            KomsiCommandKind::EOL => 10,
            KomsiCommandKind::Ignition => 65,
            KomsiCommandKind::Engine => 66,
            KomsiCommandKind::PassengerDoorsOpen => 67,
            KomsiCommandKind::Indicator => 68,
            KomsiCommandKind::FixingBrake => 69,
            KomsiCommandKind::LightsWarning => 70,
            KomsiCommandKind::LightsMain => 71,
            KomsiCommandKind::LightsFrontDoor => 72,
            KomsiCommandKind::LightsSecondDoor => 73,
            KomsiCommandKind::LightsThirdDoor => 74,
            KomsiCommandKind::LightsStopRequest => 75,
            KomsiCommandKind::LightsStopBrake => 76,
            KomsiCommandKind::LightsHighBeam => 77,
            KomsiCommandKind::BatteryLight => 78,
            KomsiCommandKind::SimulatorType => 79,
            KomsiCommandKind::A16 => 80,
            KomsiCommandKind::A17 => 81,
            KomsiCommandKind::A18 => 82,
            KomsiCommandKind::A19 => 83,
            KomsiCommandKind::A20 => 84,
            KomsiCommandKind::A21 => 85,
            KomsiCommandKind::A22 => 86,
            KomsiCommandKind::A23 => 87,
            KomsiCommandKind::A24 => 88,
            KomsiCommandKind::A25 => 89,
            KomsiCommandKind::A26 => 90,
            KomsiCommandKind::A27 => 97,
            KomsiCommandKind::A28 => 98,
            KomsiCommandKind::A29 => 99,
            KomsiCommandKind::A30 => 100,
            KomsiCommandKind::A31 => 101,
            KomsiCommandKind::A32 => 102,
            KomsiCommandKind::MaxSpeed => 115,
            KomsiCommandKind::Gt => 116,
            KomsiCommandKind::Gu => 117,
            KomsiCommandKind::Gv => 118,
            KomsiCommandKind::Gw => 119,
            KomsiCommandKind::Fuel => 120,
            KomsiCommandKind::Speed => 121,
            KomsiCommandKind::Gz => 122,
        }
    }
}

/// Whether a byte is one of the ASCII digits `0` to `9`.
pub open spec fn is_digit(byte: u8) -> bool {
    48 <= byte <= 57
}

/// A number in ASCII decimal: no sign, no padding, no separator.
pub open spec fn decimal(value: nat) -> Seq<u8>
    decreases value,
{
    if value < 10 {
        seq![(48 + value) as u8]
    } else {
        decimal(value / 10).push((48 + value % 10) as u8)
    }
}

/// The number that a run of ASCII digits denotes.
pub open spec fn decimal_value(digits: Seq<u8>) -> nat
    decreases digits.len(),
{
    if digits.len() == 0 {
        0
    } else {
        (10 * decimal_value(digits.drop_last()) + (digits.last() - 48)) as nat
    }
}

/// One record of the wire protocol: the command byte, then the value.
pub open spec fn komsi_command(cmd: KomsiCommandKind, value: nat) -> Seq<u8> {
    seq![cmd.code_spec()] + decimal(value)
}

/// `decimal` writes digits only, at least one of them, and none in front of
/// the number but for the number 0 itself.
pub proof fn lemma_decimal_shape(value: nat)
    ensures
        decimal(value).len() >= 1,
        forall|i: int| 0 <= i < decimal(value).len() ==> is_digit(#[trigger] decimal(value)[i]),
        value > 0 ==> decimal(value)[0] != 48,
        value == 0 ==> decimal(value) == seq![48u8],
    decreases value,
{
    if value >= 10 {
        lemma_decimal_shape(value / 10);
    }
}

/// Reading back what `decimal` wrote gives the number again, so two numbers
/// are never written alike.
pub proof fn lemma_decimal_value(value: nat)
    ensures
        decimal_value(decimal(value)) == value,
    decreases value,
{
    if value < 10 {
        let one = decimal(value);
        assert(decimal_value(one.drop_last()) == 0);
    } else {
        lemma_decimal_value(value / 10);
        let all = decimal(value);
        assert(all.drop_last() == decimal(value / 10));
    }
}

/// A `u32` takes at most ten digits.
pub proof fn lemma_decimal_len(value: nat)
    ensures
        value < 10 ==> decimal(value).len() == 1,
        value < 100 ==> decimal(value).len() <= 2,
        value < 1000 ==> decimal(value).len() <= 3,
        value <= u32::MAX ==> decimal(value).len() <= 10,
{
    reveal_with_fuel(decimal, 11);
}

/// Appends `value` in ASCII decimal to `buffer`.
pub fn push_decimal(buffer: &mut Vec<u8>, value: u32)
    ensures
        final(buffer)@ == old(buffer)@ + decimal(value as nat),
    decreases value,
{
    if value >= 10 {
        push_decimal(buffer, value / 10);
    }
    let digit: u8 = (value % 10) as u8;
    buffer.push(48 + digit);
}

/// The record for `cmd` with the value `wert`.
pub fn build_komsi_command(cmd: KomsiCommandKind, wert: u32) -> (buffer: Vec<u8>)
    ensures
        buffer@ == komsi_command(cmd, wert as nat),
{
    let mut buffer: Vec<u8> = Vec::new();
    buffer.push(cmd.code());
    push_decimal(&mut buffer, wert);
    buffer
}

/// The record for `cmd` with the one-byte value `wert`.
pub fn build_komsi_command_u8(cmd: KomsiCommandKind, wert: u8) -> (buffer: Vec<u8>)
    ensures
        buffer@ == komsi_command(cmd, wert as nat),
{
    build_komsi_command(cmd, wert as u32)
}

} // verus!
