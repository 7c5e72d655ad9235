//! Settings that a parachain's chain specification carries beside its genesis.
use vstd::prelude::*;

verus! {

/// The parachain extensions of a chain specification.
#[derive(Debug, Clone)]
pub struct Extensions {
    /// The relay chain of the parachain.
    pub relay_chain: String,
    /// The id of the parachain.
    pub para_id: u32,
}

} // verus!
