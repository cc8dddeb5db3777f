//! Arguments of the explorer commands.

use vstd::prelude::*;

verus! {

/// Arguments of the command that sets up the block explorer.
pub struct ExplorerArgs {
    /// The port number for the block explorer app.
    pub port: u16,
}

} // verus!
