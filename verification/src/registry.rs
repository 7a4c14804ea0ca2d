//! The registry of the currently active backend.
//!
//! The registry owns one shared handle. Replacing the backend stores a new handle and
//! leaves every handle given out before untouched, so an operation that already holds
//! one finishes on the backend it started on.

use crate::backend::{kind_of, BackendKind};
use rivia::errors::RvError;
use rivia::sys::Vfs;
use std::sync::Arc;
use vstd::prelude::*;

verus! {

/// Holds exactly one current backend, shared with every handle given out.
pub struct Registry {
    current: Arc<Vfs>,
    swaps: Ghost<nat>,
}

/// Calls `Arc::clone`, which makes another pointer to the same allocation.
#[verifier::external_body]
fn share(handle: &Arc<Vfs>) -> (other: Arc<Vfs>)
    ensures
        other == *handle,
{
    Arc::clone(handle)
}

impl Registry {
    /// The backend that is current.
    pub closed spec fn view(&self) -> Vfs {
        *self.current
    }

    /// How often the current backend has been replaced since the registry was made.
    pub closed spec fn swaps(&self) -> nat {
        self.swaps@
    }

    /// What replacing the current backend by `vfs` makes of this registry.
    pub open spec fn replaced_by(&self, vfs: Vfs, after: Registry) -> bool {
        &&& after@ == vfs
        &&& after.swaps() == self.swaps() + 1
    }

    /// What a switch to `kind` makes of this registry: nothing where the current backend
    /// is of that kind already, and else a replacement by a backend of that kind.
    pub open spec fn switched_to(&self, kind: BackendKind, after: Registry) -> bool {
        if kind_of(self@) == kind {
            after@ == self@ && after.swaps() == self.swaps()
        } else {
            kind_of(after@) == kind && after.swaps() == self.swaps() + 1
        }
    }

    /// A registry whose current backend is the real filesystem.
    pub fn new() -> (registry: Registry)
        ensures
            kind_of(registry@) == BackendKind::Stdfs,
            registry.swaps() == 0,
    {
        Registry { current: Arc::new(BackendKind::Stdfs.create()), swaps: Ghost(0) }
    }

    /// A handle to the backend that is current at the time of the call.
    pub fn get_current(&self) -> (handle: Arc<Vfs>)
        ensures
            *handle == self@,
    {
        share(&self.current)
    }

    /// The kind of the backend that is current.
    pub fn kind(&self) -> (kind: BackendKind)
        ensures
            kind == kind_of(self@),
    {
        BackendKind::of(&self.current)
    }

    /// Makes `vfs` the current backend. Always succeeds.
    pub fn replace(&mut self, vfs: Vfs) -> (r: Result<(), RvError>)
        ensures
            r is Ok,
            old(self).replaced_by(vfs, *final(self)),
    {
        self.current = Arc::new(vfs);
        self.swaps = Ghost((self.swaps@ + 1) as nat);
        Ok(())
    }

    /// Makes a new backend of the given kind current, unless the current backend is of
    /// that kind already: then nothing is replaced. Always succeeds.
    pub fn replace_if_different(&mut self, kind: BackendKind) -> (r: Result<(), RvError>)
        ensures
            r is Ok,
            old(self).switched_to(kind, *final(self)),
            kind_of(final(self)@) == kind,
    {
        if self.kind() == kind {
            Ok(())
        } else {
            self.replace(kind.create())
        }
    }
}

impl Clone for Registry {
    /// A registry on the same backend. What is later replaced in one of the two does not
    /// show in the other.
    fn clone(&self) -> (snapshot: Self)
        ensures
            snapshot@ == self@,
            snapshot.swaps() == self.swaps(),
    {
        Registry { current: share(&self.current), swaps: self.swaps }
    }
}

/// Switching to the same kind twice in a row replaces the backend at most once: the
/// second switch replaces nothing.
pub proof fn lemma_switch_is_idempotent(
    first: Registry,
    second: Registry,
    third: Registry,
    kind: BackendKind,
)
    requires
        first.switched_to(kind, second),
        second.switched_to(kind, third),
    ensures
        third@ == second@,
        third.swaps() == second.swaps(),
        third.swaps() <= first.swaps() + 1,
{
}

/// A handle taken before a replacement refers to the backend that was current when it
/// was taken, and does not follow the registry to a different backend.
pub proof fn lemma_replace_is_not_retroactive(
    before: Registry,
    handle: Arc<Vfs>,
    vfs: Vfs,
    after: Registry,
)
    requires
        *handle == before@,
        before.replaced_by(vfs, after),
    ensures
        vfs != before@ ==> *handle != after@,
{
}

} // verus!
