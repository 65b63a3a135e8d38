use vstd::prelude::*;

verus! {

/// The flatpak step takes no meaningful arguments.
pub type FlatpakConfig = ();

} // verus!
