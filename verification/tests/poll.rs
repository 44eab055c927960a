use omsi2komsi::field::SemanticField;
use omsi2komsi::omsi::VehicleClock;
use omsi2komsi::poll::{Poller, TICK_MILLIS};
use omsi2komsi::snapshot::SnapshotStore;
use omsi2komsi::vehicle::init_vehicle_state;

#[test]
fn tick_interval() {
    assert_eq!(TICK_MILLIS, 100);
}

#[test]
fn end_to_end() {
    let mut store = SnapshotStore::new();
    store.write(SemanticField::Ignition, 1);
    store.write(SemanticField::Battery, 1);
    store.write(SemanticField::Speed, 42);
    let mut poller = Poller::new(1);
    assert_eq!(poller.previous(), init_vehicle_state());
    let frame = poller.tick(&store);
    assert_eq!(frame, b"A1B1N1y42\n".to_vec());
}

#[test]
fn second_tick_on_the_same_snapshot_is_silent() {
    let mut store = SnapshotStore::new();
    store.write(SemanticField::Ignition, 1);
    store.write(SemanticField::Speed, 42);
    let mut poller = Poller::new(1);
    assert!(!poller.tick(&store).is_empty());
    assert!(poller.tick(&store).is_empty());
    assert!(poller.tick(&store).is_empty());
}

#[test]
fn tick_sends_only_what_changed_since_the_tick_before() {
    let mut store = SnapshotStore::new();
    let mut poller = Poller::new(1);
    assert!(poller.tick(&store).is_empty());
    store.write(SemanticField::Ignition, 1);
    store.write(SemanticField::Speed, 10);
    assert_eq!(poller.tick(&store), b"A1y10\n".to_vec());
    store.write(SemanticField::Speed, 11);
    assert_eq!(poller.tick(&store), b"y11\n".to_vec());
    assert_eq!(poller.previous().speed, 11);
    store.write(SemanticField::Ignition, 0);
    assert_eq!(poller.tick(&store), b"A0y0\n".to_vec());
    assert_eq!(poller.previous(), init_vehicle_state());
}

#[test]
fn tick_keeps_the_clock_and_the_distance() {
    let mut store = SnapshotStore::new();
    let mut poller = Poller::new(1);
    let midnight = VehicleClock { hour: 0, minute: 0, second: 0, day: 0, month: 0, year: 0 };
    assert_eq!(poller.latest().clock, midnight);
    store.write(SemanticField::Ignition, 1);
    store.write(SemanticField::Time, 3661);
    store.write(SemanticField::Day, 24);
    store.write(SemanticField::Odometer, 99);
    // the clock is not sent: the frame holds the ignition only
    assert_eq!(poller.tick(&store), b"A1\n".to_vec());
    assert_eq!(
        poller.latest().clock,
        VehicleClock { hour: 1, minute: 1, second: 1, day: 24, month: 0, year: 0 }
    );
    assert_eq!(poller.latest().odometer, 99);
    assert_eq!(poller.latest().state, poller.previous());
    store.write(SemanticField::Time, 3662);
    assert!(poller.tick(&store).is_empty());
    assert_eq!(poller.latest().clock.second, 2);
}
