//! Conversions between the messages of the scheduler, of the node agents and of the
//! controller.
pub mod instance;
pub mod port;
pub mod resource;
pub mod status;

use vstd::prelude::*;

verus! {

/// Conversions of node descriptions (none are needed yet).
pub struct NodeParser {}

} // verus!
