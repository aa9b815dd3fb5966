//! Why a configuration was rejected.

use vstd::prelude::*;

verus! {

/// A reason for which a sweep or an axis cannot be built.
#[derive(Clone, Copy, Debug, PartialEq, Eq, Structural)]
pub enum ConfigError {
    /// The step of a sweep is zero, so the sweep would never end.
    ZeroStep,
    /// The lower bound of a logical range is not below its upper bound.
    EmptyRange,
}

} // verus!
