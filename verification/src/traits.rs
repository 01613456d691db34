//! A trait for cleaning up no longer needed entities.

use vstd::prelude::*;

verus! {

/// Removal of entities that are no longer needed (dead enemies,
/// out-of-bounds projectiles, finished markers).  Each implementor
/// fixes what "cleaned up" means for it through `cleaned`.
pub trait Cleanable: Sized {
    /// The relation between the state before and after a cleanup pass.
    spec fn cleaned(pre: Self, post: Self) -> bool;

    fn clean_up(&mut self)
        ensures
            Self::cleaned(*old(self), *final(self)),
    ;
}

} // verus!
