//! Pieces of the Optimism node flavour that need no database.

use vstd::prelude::*;

verus! {

/// Maps transaction information to its Optimism form with default deposit
/// information.
#[derive(Clone, Copy, Debug, Default)]
pub struct SimpleOpTxInfoMapper;

} // verus!
