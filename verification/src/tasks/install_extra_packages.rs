use vstd::prelude::*;

verus! {

/// The extra packages to install, one package name per element.
///
/// A list-shaped configuration spreads into one positional call argument
/// per element when it is handed to the entry point.
pub type ExtraPackages = Vec<String>;

} // verus!
