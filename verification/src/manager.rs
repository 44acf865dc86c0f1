//! The factory description for engine handles: where the engine binary
//! lives. The surrounding runtime spawns one process per handle from this
//! path and performs the readiness handshake; the pool only directs when
//! that happens.

use vstd::prelude::*;

verus! {

/// Describes how engine handles are created: the path of the engine
/// binary each handle's process is spawned from.
pub struct StockfishManager {
    pub path: String,
}

impl StockfishManager {
    /// A manager that spawns handles from the given binary path.
    pub fn new(path: String) -> (r: StockfishManager)
        ensures
            r.path@ == path@,
    {
        StockfishManager { path }
    }
}

} // verus!
