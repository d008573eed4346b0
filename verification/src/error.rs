//! Structured composition failures. Each failure points at the declaration(s)
//! responsible by their positions in the declaration list.

use vstd::prelude::*;

verus! {

/// Why a runtime composition failed to build. Positions are indices into the
/// ordered declaration list handed to the engine.
#[derive(Clone, Copy, Debug, PartialEq, Eq, Structural)]
pub enum CompositionError {
    /// No declaration carries the reserved system-pallet name.
    MissingSystemModule,
    /// Two declarations resolved to the same final index; both sites are named.
    DuplicateIndex { first: usize, second: usize, index: u8 },
    /// Two declarations share a name; both sites are named.
    DuplicateName { first: usize, second: usize },
    /// An implicit index would exceed the largest representable index.
    IndexOverflow { at: usize },
    /// An instance-qualified pallet declares a non-generic `Event` part.
    InstanceRequiresGenericEvent { at: usize },
    /// An instance-qualified pallet declares a non-generic `Origin` part.
    InstanceRequiresGenericOrigin { at: usize },
}

} // verus!
