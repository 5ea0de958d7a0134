//! World-generation utilities: the integer side of the noise router
//! (aquifer cells and packed positions, cache indexing, coordinate conversions).
use vstd::prelude::*;

pub mod math;
pub mod noise_router;

verus! {

/// Identifier of a block state.
#[derive(Clone, Copy, Debug, PartialEq, Eq, Structural)]
pub struct BlockStateId(pub u16);

} // verus!
