//! The one-time load of the GPU entry points.
//!
//! The entry points come from a shared library that the host opens. The
//! resolver says when to open it and remembers how that went, so that the
//! load happens once however often it is asked for.

use vstd::prelude::*;

verus! {

/// How far the load has come.
#[derive(Clone, Copy, Debug, PartialEq, Eq, Structural)]
pub enum ResolverState {
    /// Nobody has asked yet.
    Unloaded,
    /// The entry points are in place.
    Loaded,
    /// The library could not be found. Nothing can be drawn in this process.
    Failed,
}

/// What the host has to do when the entry points are asked for.
#[derive(Clone, Copy, Debug, PartialEq, Eq, Structural)]
pub enum ResolverRequest {
    /// Open the library and take the entry points from it.
    Load,
    /// Nothing: they are in place.
    Nothing,
    /// Nothing can be done: the library was missing before.
    GiveUp,
}

/// The GPU library could not be found. This is fatal for the whole process,
/// and is no shader or texture error.
#[derive(Clone, Copy, Debug, PartialEq, Eq, Structural)]
pub struct LibraryMissing;

/// The resolver of a process.
#[derive(Clone, Copy, Debug, PartialEq, Eq, Structural)]
pub struct Resolver {
    pub state: ResolverState,
}

/// What is asked of the host in a state.
pub open spec fn request_in(state: ResolverState) -> ResolverRequest {
    match state {
        ResolverState::Unloaded => ResolverRequest::Load,
        ResolverState::Loaded => ResolverRequest::Nothing,
        ResolverState::Failed => ResolverRequest::GiveUp,
    }
}

/// The state after the host did what was asked; `found` says whether the
/// library was there, and counts only where it was asked to load.
pub open spec fn settled(state: ResolverState, found: bool) -> ResolverState {
    match state {
        ResolverState::Unloaded => if found {
            ResolverState::Loaded
        } else {
            ResolverState::Failed
        },
        _ => state,
    }
}

/// The state after `calls` rounds of asking, on a machine where the library
/// is there or not.
pub open spec fn after_rounds(state: ResolverState, found: bool, calls: nat) -> ResolverState
    decreases calls,
{
    if calls == 0 {
        state
    } else {
        settled(after_rounds(state, found, (calls - 1) as nat), found)
    }
}

/// How often the library is opened in `calls` rounds of asking.
pub open spec fn loads_in(state: ResolverState, found: bool, calls: nat) -> nat
    decreases calls,
{
    if calls == 0 {
        0
    } else {
        let before = (calls - 1) as nat;
        loads_in(state, found, before) + if request_in(after_rounds(state, found, before))
            == ResolverRequest::Load {
            1nat
        } else {
            0nat
        }
    }
}

/// The name of the library that holds the entry points.
pub fn library_name() -> (name: &'static str)
    ensures
        name@ == "libepoxy.so.0"@,
{
    "libepoxy.so.0"
}

impl Resolver {
    /// A resolver that has not been asked yet.
    pub fn new() -> (resolver: Resolver)
        ensures
            resolver.state == ResolverState::Unloaded,
    {
        Resolver { state: ResolverState::Unloaded }
    }

    /// What the host has to do now so that the entry points are in place.
    pub fn ensure_loaded(&self) -> (request: ResolverRequest)
        ensures
            request == request_in(self.state),
    {
        match self.state {
            ResolverState::Unloaded => ResolverRequest::Load,
            ResolverState::Loaded => ResolverRequest::Nothing,
            ResolverState::Failed => ResolverRequest::GiveUp,
        }
    }

    /// Takes note of how the request went. `found` says whether the library
    /// was there; it counts only where the request was to load.
    pub fn record(&mut self, found: bool) -> (result: Result<(), LibraryMissing>)
        ensures
            final(self).state == settled(old(self).state, found),
            result is Ok <==> final(self).state == ResolverState::Loaded,
    {
        match self.state {
            ResolverState::Unloaded => {
                if found {
                    self.state = ResolverState::Loaded;
                    Ok(())
                } else {
                    self.state = ResolverState::Failed;
                    Err(LibraryMissing)
                }
            },
            ResolverState::Loaded => Ok(()),
            ResolverState::Failed => Err(LibraryMissing),
        }
    }
}

/// Idempotent resolver. Asking any number of times, at least once, comes to
/// the same as asking once: the library is opened exactly once, and the
/// resolver ends where the first round left it.
pub proof fn lemma_resolver_idempotent(found: bool, calls: nat)
    requires
        calls >= 1,
    ensures
        after_rounds(ResolverState::Unloaded, found, calls) == after_rounds(
            ResolverState::Unloaded,
            found,
            1,
        ),
        loads_in(ResolverState::Unloaded, found, calls) == 1,
        after_rounds(ResolverState::Unloaded, found, calls) != ResolverState::Unloaded,
    decreases calls,
{
    reveal_with_fuel(after_rounds, 2);
    reveal_with_fuel(loads_in, 2);
    if calls > 1 {
        lemma_resolver_idempotent(found, (calls - 1) as nat);
    }
}

} // verus!
