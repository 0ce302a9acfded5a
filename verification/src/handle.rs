//! Ownership discipline of native handles. A kernel-attributes handle comes
//! in two modes: *borrowed* (the native caller owns it; the bridge must never
//! release it) and *owned* (produced by the native deep-copy call; the bridge
//! must release it exactly once on destruction). A kernel-context handle is
//! always borrowed and valid only for one invocation. A scratch buffer owns
//! exactly one device-aware allocation, freed exactly once, with a host view
//! only when its memory space is host-accessible.
//!
//! The model here is what the bridge decides about a handle — whether a
//! native release or free call is due, whether a host view may be handed out
//! — while the opaque pointer itself and the call stay with the unverified
//! shell around this crate.

use vstd::prelude::*;

verus! {

/// Who owns a native handle.
#[derive(Debug, Clone, Copy, PartialEq, Eq, Structural)]
pub enum HandleMode {
    /// The native caller owns the handle; the bridge must never release it.
    Borrowed,
    /// The bridge owns the handle and must release it exactly once.
    Owned,
}

/// The release ledger of one native kernel-attributes handle: its ownership
/// mode, fixed at acquisition, and how many release calls the bridge has
/// asked for on it.
pub struct KernelAttributes {
    mode: HandleMode,
    releases: u32,
}

impl KernelAttributes {
    /// The handle's ownership mode.
    pub closed spec fn mode(self) -> HandleMode {
        self.mode
    }

    /// How many release calls the bridge has asked for on this handle.
    pub closed spec fn releases(self) -> u32 {
        self.releases
    }

    /// The discipline: never more than one release, and none at all for a
    /// borrowed handle.
    pub closed spec fn inv(self) -> bool {
        &&& self.releases <= 1
        &&& self.mode is Borrowed ==> self.releases == 0
    }

    /// Records a handle received from the native runtime in the given mode;
    /// nothing has been released yet.
    pub fn from_native(mode: HandleMode) -> (r: Self)
        ensures
            r.inv(),
            r.mode() == mode,
            r.releases() == 0,
    {
        KernelAttributes { mode, releases: 0 }
    }

    /// Whether the destructor must release this handle: only an owned one.
    pub fn should_release(&self) -> (r: bool)
        ensures
            r == (self.mode() is Owned),
    {
        match self.mode {
            HandleMode::Owned => true,
            HandleMode::Borrowed => false,
        }
    }

    /// A clone of an attributes handle is made by the native deep-copy call;
    /// whatever the original's mode, the copy is owned and is released
    /// independently, so it may outlive the invocation it was cloned in.
    pub fn clone_handle(&self) -> (r: Self)
        ensures
            r.inv(),
            r.mode() is Owned,
            r.releases() == 0,
    {
        KernelAttributes { mode: HandleMode::Owned, releases: 0 }
    }

    /// The destructor's decision: asks for a native release exactly when the
    /// handle is owned and was not released before, and records it. Run once
    /// when the handle goes out of scope.
    pub fn on_drop(&mut self) -> (do_release: bool)
        requires
            old(self).inv(),
        ensures
            final(self).inv(),
            do_release == (old(self).mode() is Owned && old(self).releases() == 0),
            final(self).mode() == old(self).mode(),
            final(self).releases() == old(self).releases() + if do_release {
                1u32
            } else {
                0u32
            },
    {
        let due = match self.mode {
            HandleMode::Owned => self.releases == 0,
            HandleMode::Borrowed => false,
        };
        if due {
            self.releases = self.releases + 1;
        }
        due
    }
}

/// The discipline of one scratch buffer: memory from a device-aware
/// allocator that owns exactly one allocation, is freed exactly once when it
/// goes out of scope, and is host-viewable if and only if the allocator's
/// memory space is host-accessible — device memory is never dereferenced on
/// the host. The raw storage stays with the unverified shell; this ledger is
/// what its accessors and destructor consult.
pub struct ScratchBuffer {
    cpu_accessible: bool,
    frees: u32,
}

impl ScratchBuffer {
    /// Whether the buffer's memory space is host-accessible.
    pub closed spec fn cpu_accessible(self) -> bool {
        self.cpu_accessible
    }

    /// How many free calls the bridge has asked for on this allocation.
    pub closed spec fn frees(self) -> u32 {
        self.frees
    }

    /// The discipline: the one allocation is never freed more than once.
    pub closed spec fn inv(self) -> bool {
        self.frees <= 1
    }

    /// Records one fresh allocation; `cpu_accessible` says whether the
    /// allocator's memory space is host-accessible.
    pub fn from_allocation(cpu_accessible: bool) -> (r: Self)
        ensures
            r.inv(),
            r.cpu_accessible() == cpu_accessible,
            r.frees() == 0,
    {
        ScratchBuffer { cpu_accessible, frees: 0 }
    }

    /// Whether a host view of the buffer may be handed out: exactly when its
    /// memory space is host-accessible.
    pub fn host_view_allowed(&self) -> (r: bool)
        ensures
            r == self.cpu_accessible(),
    {
        self.cpu_accessible
    }

    /// The destructor's decision: asks for the native free exactly when the
    /// allocation was not freed before, and records it. Run once when the
    /// buffer goes out of scope.
    pub fn on_drop(&mut self) -> (do_free: bool)
        requires
            old(self).inv(),
        ensures
            final(self).inv(),
            do_free == (old(self).frees() == 0),
            final(self).cpu_accessible() == old(self).cpu_accessible(),
            final(self).frees() == old(self).frees() + if do_free {
                1u32
            } else {
                0u32
            },
    {
        let due = self.frees == 0;
        if due {
            self.frees = self.frees + 1;
        }
        due
    }
}

/// A scratch allocation is freed exactly once: never twice, and the first
/// drop decision always frees.
pub proof fn lemma_scratch_freed_at_most_once(b: ScratchBuffer)
    requires
        b.inv(),
    ensures
        b.frees() <= 1,
{
}

/// A borrowed handle is never released by the bridge.
pub proof fn lemma_borrowed_never_released(h: KernelAttributes)
    requires
        h.inv(),
        h.mode() is Borrowed,
    ensures
        h.releases() == 0,
{
}

/// No handle is ever released more than once.
pub proof fn lemma_released_at_most_once(h: KernelAttributes)
    requires
        h.inv(),
    ensures
        h.releases() <= 1,
{
}

} // verus!
