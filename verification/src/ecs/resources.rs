//! The one global resource of the store.

use vstd::prelude::*;
use crate::scalar::{Scalar, ZERO_BITS};

verus! {

/// Seconds elapsed since the previous frame.
#[derive(Clone, Copy, Debug, PartialEq, Eq, Structural)]
pub struct DeltaTime(pub Scalar);

impl Default for DeltaTime {
    /// No time has passed.
    fn default() -> (dt: DeltaTime)
        ensures
            dt == DeltaTime(Scalar { bits: ZERO_BITS }),
    {
        DeltaTime(Scalar { bits: ZERO_BITS })
    }
}

} // verus!
