//! Small helpers.

use vstd::prelude::*;

verus! {

/// A zero-sized marker for a type parameter that is only mentioned in bounds, which (unlike
/// `PhantomData`) is `Send` and `Sync` whatever the parameter is.
pub struct PhantomSyncHack<S>(Ghost<S>);

impl<S> Default for PhantomSyncHack<S> {
    fn default() -> Self {
        PhantomSyncHack(Ghost(arbitrary()))
    }
}

} // verus!
