//! The network interface that a request or a result refers to.
use vstd::prelude::*;

verus! {

/// A network interface, as the native layer numbers them.
#[derive(Clone, Copy, PartialEq, Eq, Structural, PartialOrd, Ord, Hash, Debug)]
pub enum Interface {
    /// No interface in particular.
    Any,
    /// The interface with this index.  The native layer never hands out
    /// index zero: it stands for [`Interface::Any`].
    Index(u32),
}

impl Interface {
    /// The interface that a native index stands for.
    pub open spec fn of_raw(raw: u32) -> Interface {
        if raw == 0 {
            Interface::Any
        } else {
            Interface::Index(raw)
        }
    }

    /// The native index of the interface.
    pub open spec fn raw(self) -> u32 {
        match self {
            Interface::Any => 0,
            Interface::Index(raw) => raw,
        }
    }

    /// Reads a native interface index.
    pub fn from_raw(raw: u32) -> (r: Interface)
        ensures
            r == Interface::of_raw(raw),
    {
        if raw == 0 {
            Interface::Any
        } else {
            Interface::Index(raw)
        }
    }

    /// The native index of the interface.
    pub fn into_raw(self) -> (raw: u32)
        ensures
            raw == self.raw(),
    {
        match self {
            Interface::Any => 0,
            Interface::Index(raw) => raw,
        }
    }

    /// Every native index comes back unchanged from the interface that it
    /// stands for.
    pub proof fn lemma_raw_round_trip(raw: u32)
        ensures
            Interface::of_raw(raw).raw() == raw,
    {
    }
}

} // verus!
