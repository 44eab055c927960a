//! The signals of the vehicle that the bridge knows, whatever simulator
//! variable feeds them.

use vstd::prelude::*;

verus! {

/// How many signals there are.
pub const FIELD_SLOTS: usize = 22;

/// A signal of the vehicle.
#[derive(Clone, Copy, Debug, PartialEq, Eq, Structural)]
pub enum SemanticField {
    /// Ignition switch.
    Ignition,
    /// Battery signal; it feeds both the battery light and the engine state.
    Battery,
    /// Speed.
    Speed,
    /// Light of the front door.
    FrontDoorLight,
    /// Light of the second door.
    SecondDoorLight,
    /// Light of the third door.
    ThirdDoorLight,
    /// Stop request of a passenger.
    StopRequest,
    /// Signal that stands for the main light; the simulator also sets it while
    /// the high beam is on.
    MainLight,
    /// High beam.
    HighBeam,
    /// Fixing brake.
    FixingBrake,
    /// Left indicator.
    IndicatorLeft,
    /// Right indicator.
    IndicatorRight,
    /// Fuel level in percent of a full tank.
    Fuel,
    /// Light of the bus stop brake.
    StopBrakeLight,
    /// Speed limit.
    MaxSpeed,
    /// Door loop: some door is open.
    DoorLoop,
    /// Doors are released for the passengers.
    DoorEnable,
    /// Time of day in seconds since midnight.
    Time,
    /// Day of the month.
    Day,
    /// Month of the year.
    Month,
    /// Year.
    Year,
    /// Distance travelled.
    Odometer,
}

impl SemanticField {
    /// The place of the signal in the snapshot store.
    pub open spec fn index_spec(self) -> nat {
        match self {
            SemanticField::Ignition => 0,
            SemanticField::Battery => 1,
            SemanticField::Speed => 2,
            SemanticField::FrontDoorLight => 3,
            SemanticField::SecondDoorLight => 4,
            SemanticField::ThirdDoorLight => 5,
            SemanticField::StopRequest => 6,
            SemanticField::MainLight => 7,
            SemanticField::HighBeam => 8,
            SemanticField::FixingBrake => 9,
            SemanticField::IndicatorLeft => 10,
            SemanticField::IndicatorRight => 11,
            SemanticField::Fuel => 12,
            SemanticField::StopBrakeLight => 13,
            SemanticField::MaxSpeed => 14,
            SemanticField::DoorLoop => 15,
            SemanticField::DoorEnable => 16,
            SemanticField::Time => 17,
            SemanticField::Day => 18,
            SemanticField::Month => 19,
            SemanticField::Year => 20,
            SemanticField::Odometer => 21,
        }
    }

    /// The place of the signal in the snapshot store.
    pub fn index(self) -> (i: usize)
        ensures
            i == self.index_spec(),
            i < FIELD_SLOTS,
    {
        match self {
            SemanticField::Ignition => 0,
            SemanticField::Battery => 1,
            SemanticField::Speed => 2,
            SemanticField::FrontDoorLight => 3,
            SemanticField::SecondDoorLight => 4,
            SemanticField::ThirdDoorLight => 5,
            SemanticField::StopRequest => 6,
            SemanticField::MainLight => 7,
            SemanticField::HighBeam => 8,
            SemanticField::FixingBrake => 9,
            SemanticField::IndicatorLeft => 10,
            SemanticField::IndicatorRight => 11,
            SemanticField::Fuel => 12,
            SemanticField::StopBrakeLight => 13,
            SemanticField::MaxSpeed => 14,
            SemanticField::DoorLoop => 15,
            SemanticField::DoorEnable => 16,
            SemanticField::Time => 17,
            SemanticField::Day => 18,
            SemanticField::Month => 19,
            SemanticField::Year => 20,
            SemanticField::Odometer => 21,
        }
    }

    /// The signal at a place in the snapshot store, if the place exists.
    pub fn from_index(i: usize) -> (field: Option<SemanticField>)
        ensures
            i < FIELD_SLOTS ==> field is Some && field->0.index_spec() == i,
            i >= FIELD_SLOTS ==> field is None,
    {
        match i {
            0 => Some(SemanticField::Ignition),
            1 => Some(SemanticField::Battery),
            2 => Some(SemanticField::Speed),
            3 => Some(SemanticField::FrontDoorLight),
            4 => Some(SemanticField::SecondDoorLight),
            5 => Some(SemanticField::ThirdDoorLight),
            6 => Some(SemanticField::StopRequest),
            7 => Some(SemanticField::MainLight),
            8 => Some(SemanticField::HighBeam),
            9 => Some(SemanticField::FixingBrake),
            10 => Some(SemanticField::IndicatorLeft),
            11 => Some(SemanticField::IndicatorRight),
            12 => Some(SemanticField::Fuel),
            13 => Some(SemanticField::StopBrakeLight),
            14 => Some(SemanticField::MaxSpeed),
            15 => Some(SemanticField::DoorLoop),
            16 => Some(SemanticField::DoorEnable),
            17 => Some(SemanticField::Time),
            18 => Some(SemanticField::Day),
            19 => Some(SemanticField::Month),
            20 => Some(SemanticField::Year),
            21 => Some(SemanticField::Odometer),
            _ => None,
        }
    }
}

/// Every signal has a place of its own.
pub proof fn lemma_index_injective(a: SemanticField, b: SemanticField)
    ensures
        a.index_spec() < FIELD_SLOTS,
        a.index_spec() == b.index_spec() <==> a == b,
{
}

} // verus!
