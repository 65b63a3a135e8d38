use vstd::prelude::*;

verus! {

/// The zram daemon step takes no meaningful arguments.
pub type ZRamDConfig = ();

} // verus!
