//! Facts about the current state, and conditions on them.

use vstd::prelude::*;

verus! {

/// A set of facts about the current state, one bit each.
#[derive(Clone, Copy, Debug, PartialEq, Eq, Hash, Structural)]
pub struct StateFlags {
    pub bits: u32,
}

pub const ROLE: u32 = 1;

pub const SESSION_EMPTY: u32 = 2;

pub const SESSION: u32 = 4;

pub const RAG: u32 = 8;

impl StateFlags {
    pub open spec fn has_all(self, other: StateFlags) -> bool {
        self.bits & other.bits == other.bits
    }

    pub open spec fn has_none(self, other: StateFlags) -> bool {
        self.bits & other.bits == 0
    }

    /// No fact at all.
    pub fn empty() -> (r: StateFlags)
        ensures
            r.bits == 0,
    {
        StateFlags { bits: 0 }
    }

    /// A role is in use.
    pub fn role() -> (r: StateFlags)
        ensures
            r.bits == ROLE,
    {
        StateFlags { bits: ROLE }
    }

    /// A session is active and has no history yet.
    pub fn session_empty() -> (r: StateFlags)
        ensures
            r.bits == SESSION_EMPTY,
    {
        StateFlags { bits: SESSION_EMPTY }
    }

    /// A session is active and has history.
    pub fn session() -> (r: StateFlags)
        ensures
            r.bits == SESSION,
    {
        StateFlags { bits: SESSION }
    }

    /// Retrieval-augmented generation is in use.
    pub fn rag() -> (r: StateFlags)
        ensures
            r.bits == RAG,
    {
        StateFlags { bits: RAG }
    }

    pub fn bits(&self) -> (r: u32)
        ensures
            r == self.bits,
    {
        self.bits
    }

    pub fn is_empty(&self) -> (r: bool)
        ensures
            r == (self.bits == 0),
    {
        self.bits == 0
    }

    /// The facts of `self` together with those of `other`.
    pub fn union(self, other: StateFlags) -> (r: StateFlags)
        ensures
            r.bits == self.bits | other.bits,
            r.has_all(self),
            r.has_all(other),
    {
        let a = self.bits;
        let b = other.bits;
        assert((a | b) & a == a) by (bit_vector);
        assert((a | b) & b == b) by (bit_vector);
        StateFlags { bits: a | b }
    }

    /// Adds the facts of `other`.
    pub fn insert(&mut self, other: StateFlags)
        ensures
            final(self).bits == old(self).bits | other.bits,
    {
        self.bits = self.bits | other.bits;
    }

    /// Whether every fact of `other` is among those of `self`.
    pub fn contains(&self, other: StateFlags) -> (r: bool)
        ensures
            r == self.has_all(other),
    {
        self.bits & other.bits == other.bits
    }

    /// Whether some fact of `other` is among those of `self`.
    pub fn intersects(&self, other: StateFlags) -> (r: bool)
        ensures
            r == !self.has_none(other),
    {
        self.bits & other.bits != 0
    }
}

/// A condition on the state: that all of some facts hold, or that none of
/// them does.
#[derive(Clone, Copy, Debug, PartialEq, Eq, Hash, Structural)]
pub enum AssertState {
    True(StateFlags),
    False(StateFlags),
}

impl AssertState {
    /// Whether the condition is met in `state`.
    pub open spec fn holds_in(self, state: StateFlags) -> bool {
        match self {
            AssertState::True(flags) => state.has_all(flags),
            AssertState::False(flags) => state.has_none(flags),
        }
    }

    /// The condition that every state meets.
    pub fn any() -> (r: AssertState)
        ensures
            r == AssertState::False(StateFlags { bits: 0 }),
            forall|state: StateFlags| r.holds_in(state),
    {
        assert forall|state: StateFlags| (#[trigger] state.bits) & 0 == 0 by {
            let b = state.bits;
            assert(b & 0 == 0) by (bit_vector);
        }
        AssertState::False(StateFlags::empty())
    }

    /// Whether the condition is met in `state`.
    pub fn holds(&self, state: StateFlags) -> (r: bool)
        ensures
            r == self.holds_in(state),
    {
        match self {
            AssertState::True(flags) => state.contains(*flags),
            AssertState::False(flags) => !state.intersects(*flags),
        }
    }
}

} // verus!
