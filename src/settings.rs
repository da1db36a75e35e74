//! The settings that choose how intensity is driven.

use vstd::prelude::*;

verus! {

/// Where intensity comes from.
#[derive(PartialEq, Eq, Structural, Debug, Clone, Copy)]
pub enum ControlMode {
    Manual,
    Osc,
    Remote(RemoteMode),
}

/// The side of a remote session.
#[derive(PartialEq, Eq, Structural, Debug, Clone, Copy)]
pub enum RemoteMode {
    Sender,
    Receiver,
}

impl Default for ControlMode {
    fn default() -> (r: Self)
        ensures
            r == ControlMode::Manual,
    {
        ControlMode::Manual
    }
}

} // verus!
