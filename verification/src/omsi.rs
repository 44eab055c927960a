//! From the snapshot of the simulator's signals to the state that the
//! instrument cluster shows.

use vstd::prelude::*;
use crate::field::SemanticField;
use crate::snapshot::SnapshotStore;
use crate::vehicle::{init_vehicle_state, VehicleState};

verus! {

/// 1 if the signal is set, else 0.
pub open spec fn flag(raw: u32) -> u8 {
    if raw > 0 {
        1
    } else {
        0
    }
}

/// The lowest eight bits of the signal.
pub open spec fn low_byte(raw: u32) -> u8 {
    (raw % 256) as u8
}

/// The position of the indicator: 1 is left, 2 is right. With both sides on
/// the warning lights are meant, and the indicator stays off.
pub open spec fn indicator_of(left: u32, right: u32) -> u8 {
    if left + right == 1 {
        if left == 1 {
            1
        } else {
            2
        }
    } else {
        0
    }
}

/// The warning lights are on when both sides of the indicator are.
pub open spec fn warning_of(left: u32, right: u32) -> u8 {
    if left + right > 1 {
        1
    } else {
        0
    }
}

/// The fuel level, never more than a full tank.
pub open spec fn fuel_of(raw: u32) -> u32 {
    if raw > 100 {
        100
    } else {
        raw
    }
}

/// Whether some door is open or released.
pub open spec fn doors_of(store: SnapshotStore) -> u8 {
    if store.value(SemanticField::DoorLoop) > 0 || store.value(SemanticField::FrontDoorLight) > 0
        || store.value(SemanticField::SecondDoorLight) > 0 || store.value(
        SemanticField::ThirdDoorLight,
    ) > 0 || store.value(SemanticField::DoorEnable) > 0 {
        1
    } else {
        0
    }
}

/// The state that a snapshot stands for. While the ignition is off nothing
/// else counts, and the state is the initial one.
pub open spec fn derive_state(store: SnapshotStore, engine_on: u8) -> VehicleState {
    if store.value(SemanticField::Ignition) == 0 {
        VehicleState::initial()
    } else {
        VehicleState {
            ignition: 1,
            engine: if store.value(SemanticField::Battery) == engine_on {
                1
            } else {
                0
            },
            doors: doors_of(store),
            speed: store.value(SemanticField::Speed),
            maxspeed: store.value(SemanticField::MaxSpeed),
            fuel: fuel_of(store.value(SemanticField::Fuel)),
            indicator: indicator_of(
                store.value(SemanticField::IndicatorLeft),
                store.value(SemanticField::IndicatorRight),
            ),
            fixing_brake: low_byte(store.value(SemanticField::FixingBrake)),
            lights_warning: warning_of(
                store.value(SemanticField::IndicatorLeft),
                store.value(SemanticField::IndicatorRight),
            ),
            lights_main: flag(store.value(SemanticField::MainLight)),
            lights_front_door: low_byte(store.value(SemanticField::FrontDoorLight)),
            lights_second_door: low_byte(store.value(SemanticField::SecondDoorLight)),
            lights_third_door: low_byte(store.value(SemanticField::ThirdDoorLight)),
            lights_stop_request: low_byte(store.value(SemanticField::StopRequest)),
            lights_stop_brake: low_byte(store.value(SemanticField::StopBrakeLight)),
            lights_high_beam: low_byte(store.value(SemanticField::HighBeam)),
            battery_light: flag(store.value(SemanticField::Battery)),
        }
    }
}

fn low_byte_of(raw: u32) -> (byte: u8)
    ensures
        byte == low_byte(raw),
{
    (raw % 256) as u8
}

/// The time of day and the date.
#[derive(Clone, Copy, Debug, PartialEq, Eq, Structural)]
pub struct VehicleClock {
    pub hour: u32,
    pub minute: u32,
    pub second: u32,
    pub day: u32,
    pub month: u32,
    pub year: u32,
}

impl VehicleClock {
    /// Midnight, with no date.
    pub open spec fn initial() -> VehicleClock {
        VehicleClock { hour: 0, minute: 0, second: 0, day: 0, month: 0, year: 0 }
    }
}

/// The clock that a snapshot stands for: the seconds since midnight taken
/// apart into hours, minutes and seconds, and the date as it is. While the
/// ignition is off the clock is the initial one.
pub open spec fn derive_clock(store: SnapshotStore) -> VehicleClock {
    if store.value(SemanticField::Ignition) == 0 {
        VehicleClock::initial()
    } else {
        let time = store.value(SemanticField::Time);
        VehicleClock {
            hour: time / 3600,
            minute: (time % 3600) / 60,
            second: time % 60,
            day: store.value(SemanticField::Day),
            month: store.value(SemanticField::Month),
            year: store.value(SemanticField::Year),
        }
    }
}

/// Derives the time of day and the date from the snapshot.
pub fn get_vehicle_clock_from_omsi(store: &SnapshotStore) -> (clock: VehicleClock)
    ensures
        clock == derive_clock(*store),
        clock.minute < 60,
        clock.second < 60,
        store.value(SemanticField::Ignition) != 0 ==> clock.hour * 3600 + clock.minute * 60
            + clock.second == store.value(SemanticField::Time),
{
    if store.read(SemanticField::Ignition) == 0 {
        return VehicleClock { hour: 0, minute: 0, second: 0, day: 0, month: 0, year: 0 };
    }
    let time: u32 = store.read(SemanticField::Time);
    VehicleClock {
        hour: time / 3600,
        minute: (time % 3600) / 60,
        second: time % 60,
        day: store.read(SemanticField::Day),
        month: store.read(SemanticField::Month),
        year: store.read(SemanticField::Year),
    }
}

/// What a snapshot stands for: the state that the instrument cluster
/// shows, the clock, and the distance travelled.
#[derive(Clone, Copy, Debug, PartialEq, Eq, Structural)]
pub struct VehicleReading {
    pub state: VehicleState,
    pub clock: VehicleClock,
    pub odometer: u32,
}

impl VehicleReading {
    /// The reading before the first tick.
    pub open spec fn initial() -> VehicleReading {
        VehicleReading {
            state: VehicleState::initial(),
            clock: VehicleClock::initial(),
            odometer: 0,
        }
    }
}

/// The reading that a snapshot stands for. While the ignition is off
/// nothing else counts, and the reading is the initial one.
pub open spec fn derive_reading(store: SnapshotStore, engine_on: u8) -> VehicleReading {
    VehicleReading {
        state: derive_state(store, engine_on),
        clock: derive_clock(store),
        odometer: if store.value(SemanticField::Ignition) == 0 {
            0
        } else {
            store.value(SemanticField::Odometer)
        },
    }
}

/// Derives the state of the vehicle from the snapshot, with the clock and
/// the distance travelled. `engineonvalue` is the value of the battery
/// signal that means that the engine runs.
pub fn get_vehicle_state_from_omsi(store: &SnapshotStore, engineonvalue: u8) -> (reading:
    VehicleReading)
    ensures
        reading == derive_reading(*store, engineonvalue),
        reading.state.in_range(),
        store.value(SemanticField::Ignition) == 0 ==> reading == VehicleReading::initial(),
        reading.clock.minute < 60,
        reading.clock.second < 60,
        store.value(SemanticField::Ignition) != 0 ==> reading.clock.hour * 3600
            + reading.clock.minute * 60 + reading.clock.second == store.value(SemanticField::Time),
{
    let mut s = init_vehicle_state();
    let clock = get_vehicle_clock_from_omsi(store);

    if store.read(SemanticField::Ignition) == 0 {
        return VehicleReading { state: s, clock, odometer: 0 };
    }
    s.ignition = 1;

    // the battery signal stands for the battery light and for the engine
    let battery: u32 = store.read(SemanticField::Battery);
    if battery > 0 {
        s.battery_light = 1;
    }
    if battery == engineonvalue as u32 {
        s.engine = 1;
    }

    s.speed = store.read(SemanticField::Speed);
    s.maxspeed = store.read(SemanticField::MaxSpeed);

    let front: u32 = store.read(SemanticField::FrontDoorLight);
    let second: u32 = store.read(SemanticField::SecondDoorLight);
    let third: u32 = store.read(SemanticField::ThirdDoorLight);
    s.lights_front_door = low_byte_of(front);
    s.lights_second_door = low_byte_of(second);
    s.lights_third_door = low_byte_of(third);

    if store.read(SemanticField::DoorLoop) > 0 || front > 0 || second > 0 || third > 0
        || store.read(SemanticField::DoorEnable) > 0 {
        s.doors = 1;
    }

    s.lights_stop_request = low_byte_of(store.read(SemanticField::StopRequest));
    s.lights_high_beam = low_byte_of(store.read(SemanticField::HighBeam));

    if store.read(SemanticField::MainLight) > 0 {
        s.lights_main = 1;
    }

    s.fixing_brake = low_byte_of(store.read(SemanticField::FixingBrake));

    let left: u32 = store.read(SemanticField::IndicatorLeft);
    let right: u32 = store.read(SemanticField::IndicatorRight);
    let sum: u64 = left as u64 + right as u64;

    if sum == 1 {
        if left == 1 {
            s.indicator = 1
        } else {
            s.indicator = 2;
        }
    }

    if sum > 1 {
        // both sides at once are the warning lights
        s.lights_warning = 1;
    }

    let fuel: u32 = store.read(SemanticField::Fuel);
    s.fuel = if fuel > 100 {
        100
    } else {
        fuel
    };

    s.lights_stop_brake = low_byte_of(store.read(SemanticField::StopBrakeLight));

    VehicleReading { state: s, clock, odometer: store.read(SemanticField::Odometer) }
}

/// While the ignition is off, the derived state is the initial one whatever
/// the other signals are, and so are the clock and the distance.
pub proof fn lemma_ignition_gates(store: SnapshotStore, engine_on: u8)
    requires
        store.value(SemanticField::Ignition) == 0,
    ensures
        derive_state(store, engine_on) == VehicleState::initial(),
        derive_reading(store, engine_on) == VehicleReading::initial(),
{
}

/// The clock takes the seconds since midnight apart without loss: hours,
/// minutes and seconds add up to them again, with less than sixty minutes
/// and less than sixty seconds.
pub proof fn lemma_clock_adds_up(store: SnapshotStore)
    requires
        store.value(SemanticField::Ignition) != 0,
    ensures
        derive_clock(store).minute < 60,
        derive_clock(store).second < 60,
        derive_clock(store).hour * 3600 + derive_clock(store).minute * 60 + derive_clock(
            store,
        ).second == store.value(SemanticField::Time),
        derive_clock(store).day == store.value(SemanticField::Day),
        derive_clock(store).month == store.value(SemanticField::Month),
        derive_clock(store).year == store.value(SemanticField::Year),
{
}

/// The indicator shows a side exactly when that side alone is on, and the
/// warning lights are on exactly when more than one side is; so the two are
/// never on together.
pub proof fn lemma_indicator_arbitration(left: u32, right: u32)
    ensures
        indicator_of(left, right) == 1 <==> left == 1 && right == 0,
        indicator_of(left, right) == 2 <==> left == 0 && right == 1,
        indicator_of(left, right) == 0 <==> left + right != 1,
        warning_of(left, right) == 1 <==> left + right > 1,
        warning_of(left, right) == 0 <==> left + right <= 1,
{
}

/// A derived state keeps its ranges: the fuel is at most 100, and the
/// indicator is off, left or right.
pub proof fn lemma_derived_in_range(store: SnapshotStore, engine_on: u8)
    ensures
        derive_state(store, engine_on).in_range(),
        derive_state(store, engine_on).ignition <= 1,
        derive_state(store, engine_on).engine <= 1,
        derive_state(store, engine_on).doors <= 1,
        derive_state(store, engine_on).lights_warning <= 1,
        derive_state(store, engine_on).lights_main <= 1,
        derive_state(store, engine_on).battery_light <= 1,
        !(derive_state(store, engine_on).lights_warning == 1 && derive_state(
            store,
            engine_on,
        ).indicator != 0),
{
}

} // verus!
