//! What an operation of the radio asks for: a value to write to the device,
//! and the change to make to the mirrored state once that is done.

use crate::client::{FsApi, set_url_spec};
use crate::node::Node;
use crate::radio::audio::eq::EqPreset;
use crate::radio::mode::Mode;
use crate::radio::player::status::Status;
use vstd::prelude::*;

verus! {

/// A value to write to a node, as it goes into the request.
#[derive(Debug, PartialEq, Eq)]
pub struct Write {
    pub node: Node,
    pub value: String,
}

impl Write {
    /// The URL of the `SET` request that performs the write.
    pub fn url(&self, host: &str, pin: &str) -> (url: String)
        ensures
            url@ == set_url_spec(self.node, self.value@, host@, pin@),
    {
        FsApi::set_url(self.node, self.value.as_str(), host, pin)
    }
}

/// A change to one field of the mirrored state.
#[derive(Debug, PartialEq, Eq)]
pub enum Update {
    Volume(u32),
    Muted(bool),
    Power(bool),
    EqPreset(EqPreset),
    Loudness(bool),
    Bass(i32),
    Trebble(i32),
    Name(String),
    Text(String),
    Album(String),
    Artist(String),
    /// The duration of what is playing, in milliseconds.
    Duration(u64),
    GraphicUri(String),
    Mode(Mode),
    Status(Status),
    /// The time until the device goes to sleep, in seconds.
    SleepIn(u64),
    /// No field changes.
    Nothing,
}

/// What an operation asks for: first the write, where there is one, and
/// after it has succeeded the update.
#[derive(Debug, PartialEq, Eq)]
pub struct Plan {
    pub write: Option<Write>,
    pub update: Update,
}

impl Plan {
    /// The plan writes `value` to `node`, and nothing else.
    pub open spec fn writes(self, node: Node, value: Seq<char>) -> bool {
        self.write matches Some(w) && w.node == node && w.value@ == value
    }
}

} // verus!
