//! The configuration of the command line.

use vstd::prelude::*;

verus! {

/// The configuration file.
#[derive(Debug, PartialEq, Eq)]
pub struct Config {
    pub connection: Connection,
}

/// Where the device is, and its pin.
#[derive(Debug, PartialEq, Eq)]
pub struct Connection {
    pub host: String,
    pub pin: u32,
}

} // verus!
