//! One tick of the bridge: from the snapshot to the frame.

use vstd::prelude::*;
use crate::omsi::{
    derive_reading, derive_state, get_vehicle_state_from_omsi, VehicleClock, VehicleReading,
};
use crate::snapshot::SnapshotStore;
use crate::vehicle::{
    compare_vehicle_states, encode_diff, init_vehicle_state, lemma_diff_of_equal_states,
    VehicleState,
};

verus! {

/// The time between two ticks in milliseconds.
pub const TICK_MILLIS: u64 = 100;

/// What the bridge keeps from one tick to the next.
pub struct Poller {
    latest: VehicleReading,
    engine_on_value: u8,
}

impl Poller {
    /// The reading that the last tick derived, or the initial reading
    /// before the first tick.
    pub closed spec fn latest_spec(&self) -> VehicleReading {
        self.latest
    }

    /// The state that the last tick derived, or the initial state before
    /// the first tick.
    pub open spec fn previous_spec(&self) -> VehicleState {
        self.latest_spec().state
    }

    /// The value of the battery signal that means that the engine runs.
    pub closed spec fn engine_on_value_spec(&self) -> u8 {
        self.engine_on_value
    }

    /// A poller before its first tick.
    pub fn new(engine_on_value: u8) -> (poller: Poller)
        ensures
            poller.latest_spec() == VehicleReading::initial(),
            poller.engine_on_value_spec() == engine_on_value,
    {
        Poller {
            latest: VehicleReading {
                state: init_vehicle_state(),
                clock: VehicleClock { hour: 0, minute: 0, second: 0, day: 0, month: 0, year: 0 },
                odometer: 0,
            },
            engine_on_value,
        }
    }

    /// The state that the last tick derived.
    #[verifier::when_used_as_spec(previous_spec)]
    pub fn previous(&self) -> (state: VehicleState)
        ensures
            state == self.previous_spec(),
    {
        self.latest.state
    }

    /// The reading that the last tick derived: the state, the clock and the
    /// distance travelled.
    #[verifier::when_used_as_spec(latest_spec)]
    pub fn latest(&self) -> (reading: VehicleReading)
        ensures
            reading == self.latest_spec(),
    {
        self.latest
    }

    /// One tick: derives the reading from the snapshot, encodes what changed
    /// in the state since the tick before, and keeps the new reading for the
    /// next tick, whether anything changed or not.
    pub fn tick(&mut self, store: &SnapshotStore) -> (frame: Vec<u8>)
        ensures
            frame@ == encode_diff(
                old(self).previous_spec(),
                derive_state(*store, old(self).engine_on_value_spec()),
                false,
            ),
            final(self).latest_spec() == derive_reading(*store, old(self).engine_on_value_spec()),
            final(self).engine_on_value_spec() == old(self).engine_on_value_spec(),
    {
        let reading = get_vehicle_state_from_omsi(store, self.engine_on_value);
        let frame = compare_vehicle_states(&self.latest.state, &reading.state, false);
        self.latest = reading;
        frame
    }
}

/// While the snapshot stays as it is, only the first tick has a frame: the
/// tick after it finds nothing changed and sends nothing.
pub proof fn lemma_quiet_tick(store: SnapshotStore, engine_on: u8)
    ensures
        encode_diff(derive_state(store, engine_on), derive_state(store, engine_on), false)
            == Seq::<u8>::empty(),
{
    lemma_diff_of_equal_states(derive_state(store, engine_on));
}

} // verus!
