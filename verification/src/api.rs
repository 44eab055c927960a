//! The vehicle as a simulator reports it over its web interface, with the
//! numbers already turned into whole numbers.

use vstd::prelude::*;

verus! {

/// What the simulator reports of the current vehicle. Flags are the texts
/// `true` and `false`.
#[derive(Debug)]
pub struct ApiVehicleType {
    pub actor_name: String,
    pub ignition_enabled: String,
    pub engine_started: String,
    pub warning_lights: String,
    pub passenger_doors_open: String,
    pub traveller_light: String,
    pub fixing_brake: String,
    /// The magnitude of the speed, rounded.
    pub speed: u32,
    /// The magnitude of the speed limit, rounded.
    pub allowed_speed: u32,
    /// The fuel level in percent of a full tank.
    pub display_fuel: u32,
    /// -1 is left, 1 is right, anything else is off.
    pub indicator_state: i8,
    pub all_lamps: ApiLamps,
}

/// The lamps of the dashboard, each 0 or the whole part of its brightness.
#[derive(Debug)]
pub struct ApiLamps {
    pub light_main: u8,
    pub front_door_light: u8,
    pub second_door_light: u8,
    pub led_stop_request: u8,
    pub light_stopbrake: u8,
}

} // verus!
