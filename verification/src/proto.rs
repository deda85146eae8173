//! Wire-level data model shared with the browser client.

use vstd::prelude::*;

verus! {

/// Lifecycle state of the managed external service, as reported to clients.
///
/// `Unknown` only occurs between construction of a controller and its first
/// successful reconciliation; every other value is set exclusively by the
/// controller's own transitions.
#[derive(Clone, Copy, Debug, PartialEq, Eq, Structural)]
pub enum ServerState {
    Unknown,
    Off,
    Booting,
    On,
    Shutdown,
}

impl ServerState {
    /// The variant's name as it appears in messages.
    pub open spec fn label_spec(&self) -> Seq<char> {
        match self {
            ServerState::Unknown => "Unknown"@,
            ServerState::Off => "Off"@,
            ServerState::Booting => "Booting"@,
            ServerState::On => "On"@,
            ServerState::Shutdown => "Shutdown"@,
        }
    }

    /// The variant's name, used to build error messages.
    pub fn label(&self) -> (r: &'static str)
        ensures
            r@ == self.label_spec(),
    {
        match self {
            ServerState::Unknown => "Unknown",
            ServerState::Off => "Off",
            ServerState::Booting => "Booting",
            ServerState::On => "On",
            ServerState::Shutdown => "Shutdown",
        }
    }
}

} // verus!
