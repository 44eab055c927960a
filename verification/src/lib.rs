//! Bridge between a driving simulator's telemetry and an instrument cluster
//! that listens on a serial line.
//!
//! The simulator's samples are turned into whole numbers by [`sample`] and
//! routed through a [`mapping::VariableMap`] into a
//! [`snapshot::SnapshotStore`]. Every tick [`poll`] turns the store into a
//! [`vehicle::VehicleState`] by the rules of [`omsi`], compares it with the
//! state of the tick before, and encodes the difference as a frame of the
//! wire protocol in [`komsi`]. What a tick does to each serial link is
//! decided by [`fanout`].
//!
//! The bridge is put together from its settings by [`bridge`]. Around this
//! stand the settings themselves ([`settings`], [`opts`]),
//! the search for the serial port ([`serial`]), the state as a simulator
//! reports it over its web interface ([`api`]), and the logger that records
//! every change of a watched variable ([`logger`]).

pub mod api;
pub mod bridge;
pub mod fanout;
pub mod field;
pub mod komsi;
pub mod logger;
pub mod mapping;
pub mod omsi;
pub mod opts;
pub mod poll;
pub mod sample;
pub mod serial;
pub mod settings;
pub mod snapshot;
pub mod text;
pub mod vehicle;

pub use crate::omsi::get_vehicle_state_from_omsi;
