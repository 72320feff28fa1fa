//! The error of operations that cannot fail.

use vstd::prelude::*;

verus! {

/// An error without values: a `Result` with this error is always `Ok`.
pub type NoError = core::convert::Infallible;

} // verus!
