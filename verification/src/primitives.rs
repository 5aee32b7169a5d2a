//! Outside value types that the library carries without looking inside.

use vstd::prelude::*;

verus! {

/// A fixed-size byte string of `alloy_primitives` (a block or transaction hash
/// when `N` is 32).
#[verifier::external_type_specification]
#[verifier::external_body]
pub struct ExFixedBytes<const N: usize>(alloy_primitives::FixedBytes<N>);

/// An event log of `alloy_primitives`: an address together with its data.
#[verifier::external_type_specification]
#[verifier::external_body]
#[verifier::reject_recursive_types(T)]
pub struct ExLog<T>(alloy_primitives::Log<T>);

/// The data of an event log of `alloy_primitives`: its topics and payload.
#[verifier::external_type_specification]
#[verifier::external_body]
pub struct ExLogData(alloy_primitives::LogData);

} // verus!
