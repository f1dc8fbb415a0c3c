//! The values the command line hands the runtime.  Parsing arguments is
//! the embedding program's part.

use vstd::prelude::*;

verus! {

/// A request to create a container.
#[derive(Debug, Clone)]
pub struct Create {
    /// The runtime root; kept for compatibility, the controller uses its
    /// fixed root.
    pub root: String,
    /// The bundle directory holding `config.json` and the root
    /// filesystem.
    pub bundle: String,
    /// The container's identity; must not be empty.
    pub container_id: String,
}

/// A request to start a created container.
#[derive(Debug, Clone)]
pub struct Start {
    /// The container's identity; must not be empty.
    pub container_id: String,
}

} // verus!
