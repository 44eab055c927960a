//! Starting the bridge from its settings.

use vstd::prelude::*;
use crate::fanout::FanOut;
use crate::field::SemanticField;
use crate::mapping::{is_in_order, VariableMap, PLUGIN_VARIABLES};
use crate::omsi::VehicleReading;
use crate::poll::Poller;
use crate::settings::{PluginSettings, SettingsError};

verus! {

/// The value of the battery signal that means that the engine runs, where
/// the settings name none.
pub const DEFAULT_ENGINE_ON_VALUE: u8 = 1;

/// The parts of the bridge as they are when it starts.
pub struct Bridge {
    /// Which variable feeds which signal.
    pub table: VariableMap,
    /// What is kept from tick to tick.
    pub poller: Poller,
    /// The serial links.
    pub fan: FanOut,
}

/// Starts the bridge. With settings, the variables feed the signals in
/// their order, and there is one link, to the port of the settings. Without
/// settings the bridge goes on all the same, but idle: no variable feeds a
/// signal, there is no link, and nothing is sent.
pub fn start_bridge(settings: Result<PluginSettings, SettingsError>) -> (bridge: Bridge)
    ensures
        bridge.poller.latest_spec() == VehicleReading::initial(),
        match settings {
            Ok(s) => {
                &&& is_in_order(bridge.table@, PLUGIN_VARIABLES as nat)
                &&& bridge.poller.engine_on_value_spec() == s.engineonvalue
                &&& bridge.fan.serial_enabled_spec()
                &&& bridge.fan@.len() == 1
                &&& bridge.fan@[0].name@ == s.portname@
                &&& bridge.fan@[0].baud == s.baudrate
                &&& bridge.fan@[0].enabled
                &&& !bridge.fan@[0].open
            },
            Err(_) => {
                &&& bridge.table@ == Map::<int, SemanticField>::empty()
                &&& bridge.poller.engine_on_value_spec() == DEFAULT_ENGINE_ON_VALUE
                &&& !bridge.fan.serial_enabled_spec()
                &&& bridge.fan@.len() == 0
            },
        },
{
    match settings {
        Ok(s) => {
            let mut fan = FanOut::new(true);
            fan.add_link(s.portname, s.baudrate);
            Bridge {
                table: VariableMap::in_order(PLUGIN_VARIABLES),
                poller: Poller::new(s.engineonvalue),
                fan,
            }
        },
        Err(_) => Bridge {
            table: VariableMap::new(),
            poller: Poller::new(DEFAULT_ENGINE_ON_VALUE),
            fan: FanOut::new(false),
        },
    }
}

} // verus!
