//! The options of the bridge.

use vstd::prelude::*;
use vstd::string::StringExecFns;

verus! {

/// The options of the bridge.
#[derive(Debug)]
pub struct Opts {
    /// The serial port of the instrument cluster.
    pub port: Option<String>,
    /// A text to find the serial port by.
    pub find: Option<String>,
    /// The address of the machine on which the simulator runs.
    pub ip: String,
    /// The baud rate.
    pub baud: u32,
    /// The time between two requests to the simulator in milliseconds.
    pub sleeptime: u64,
    pub debug: bool,
    pub debug_serial: bool,
    pub debug_command: bool,
    /// Send nothing to the serial port.
    pub disable_serial: bool,
    /// List the serial ports.
    pub list: bool,
    pub verbose: bool,
    /// Send every field anew.
    pub clear: bool,
}

impl Default for Opts {
    /// The options as they are when none is given.
    fn default() -> (opts: Opts)
        ensures
            opts.port is None,
            opts.find is None,
            opts.ip@ == "127.0.0.1"@,
            opts.baud == 115200,
            opts.sleeptime == 200,
            !opts.debug && !opts.debug_serial && !opts.debug_command,
            !opts.disable_serial && !opts.list && !opts.verbose && !opts.clear,
    {
        Opts {
            port: None,
            find: None,
            ip: String::from_str("127.0.0.1"),
            baud: 115200,
            sleeptime: 200,
            debug: false,
            debug_serial: false,
            debug_command: false,
            disable_serial: false,
            list: false,
            verbose: false,
            clear: false,
        }
    }
}

} // verus!
