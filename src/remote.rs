//! Commands to the remote relay's worker.

use vstd::prelude::*;

verus! {

/// A command to the remote relay's worker.
#[derive(Debug, Clone, Copy, PartialEq, Eq, Structural)]
pub enum ServerCommand {
    Start,
    Stop,
}

} // verus!
