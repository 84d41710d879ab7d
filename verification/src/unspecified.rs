//! Values of which a contract says only what they depend on.

use vstd::prelude::*;

verus! {

/// Some value that depends on `of` alone. Nothing else is known of it.
pub closed spec fn unspecified<T, R>(of: T) -> R {
    arbitrary::<spec_fn(T) -> R>()(of)
}

} // verus!
