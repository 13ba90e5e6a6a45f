//! Entity identifiers.

use vstd::prelude::*;

verus! {

/// An entity is an index into every component container: component slot `i`
/// of each container always describes entity `i`. Entities carry no behavior
/// of their own and are never destroyed mid-session (death is a flag in the
/// health component, not a removal).
#[derive(Clone, Copy, PartialEq, Eq, Structural, Debug)]
pub struct Entity(pub usize);

} // verus!
