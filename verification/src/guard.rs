//! The two-case result of asking whether a candidate root is already a
//! project.  Exactly one case holds; the uninitialized case keeps the
//! original closed handle, so a failed check costs nothing and the inspection
//! can be repeated.

use vstd::prelude::*;

verus! {

/// Outcome of inspecting a candidate root for an existing project.
#[derive(Debug)]
pub enum Guard<I, U> {
    /// The root already holds a manifest; the payload is the opened value.
    Initialized(I),
    /// The root holds no manifest; the payload is the original closed handle,
    /// returned unchanged.
    Uninitialized(U),
}

impl<I, U> Guard<I, U> {
    /// Whether first-time initialization is still needed.
    pub fn needs_init(&self) -> (r: bool)
        ensures
            r <==> self is Uninitialized,
    {
        match self {
            Guard::Initialized(_) => false,
            Guard::Uninitialized(_) => true,
        }
    }
}

} // verus!
