//! The registration sequence that attaches a configured execution provider
//! to a session being built: create the native provider-options object, apply
//! the serialized option set onto it, append the provider to the session
//! builder, and release the options object on every exit path on which it was
//! created — success, partial failure, or early return.
//!
//! The sequence is a state machine: the caller performs each native call this
//! module asks for and reports its outcome, so the decisions here are checked
//! for every possible interleaving of native failures.

use vstd::prelude::*;
use vstd::pervasive::unreached;
use crate::error::{Error, RegisterError};

verus! {

/// What the driver of a registration sequence must do next.
#[derive(Debug)]
pub enum RegisterAction {
    /// Create the native provider-options object.
    CallCreate,
    /// Apply the serialized option set onto the native object.
    CallUpdate,
    /// Append the configured provider to the session builder.
    CallAppend,
    /// Release the native provider-options object. A failure of the release
    /// itself is best-effort and must not mask a pending error.
    CallRelease,
    /// The sequence is over; report this result to the caller.
    Finish(Result<(), RegisterError>),
}

/// Where a registration sequence stands.
#[derive(Debug)]
pub enum RegisterPhase {
    /// Nothing done yet.
    Init,
    /// Waiting for the outcome of the create call.
    Creating,
    /// Waiting for the outcome of the update call.
    Updating,
    /// Waiting for the outcome of the append call.
    Appending,
    /// Waiting for the outcome of the release call; the provider is attached.
    ReleasingThenOk,
    /// Waiting for the outcome of the release call; the held failure is
    /// reported afterwards, whatever the release itself does.
    ReleasingThenFail(Error),
    /// A result has been reported.
    Finished,
}

/// One registration of a provider against a session builder.
pub struct RegisterSequence {
    phase: RegisterPhase,
    backend_available: bool,
    created: bool,
    releases: u32,
}

impl RegisterSequence {
    /// Where the sequence stands.
    pub closed spec fn phase(self) -> RegisterPhase {
        self.phase
    }

    /// Whether the bridge was built with the provider backend.
    pub closed spec fn backend_available(self) -> bool {
        self.backend_available
    }

    /// Whether the create call has succeeded.
    pub closed spec fn created(self) -> bool {
        self.created
    }

    /// How many release calls the sequence has asked for.
    pub closed spec fn releases(self) -> u32 {
        self.releases
    }

    /// The sequence's internal discipline: a release is asked for exactly
    /// once after a successful create, and never otherwise.
    pub closed spec fn inv(self) -> bool {
        match self.phase {
            RegisterPhase::Init => !self.created && self.releases == 0,
            RegisterPhase::Creating => !self.created && self.releases == 0,
            RegisterPhase::Updating => self.created && self.releases == 0,
            RegisterPhase::Appending => self.created && self.releases == 0,
            RegisterPhase::ReleasingThenOk => self.created && self.releases == 1,
            RegisterPhase::ReleasingThenFail(_) => self.created && self.releases == 1,
            RegisterPhase::Finished => self.releases == if self.created {
                1u32
            } else {
                0u32
            },
        }
    }

    /// Starts a registration. `backend_available` says whether this build of
    /// the bridge carries the provider backend; when it does not, the
    /// sequence reports `MissingFeature` without asking for any native call.
    pub fn new(backend_available: bool) -> (r: Self)
        ensures
            r.inv(),
            r.phase() is Init,
            r.backend_available() == backend_available,
            !r.created(),
            r.releases() == 0,
    {
        RegisterSequence { phase: RegisterPhase::Init, backend_available, created: false, releases: 0 }
    }

    /// Advances the sequence. `outcome` is the result of the native call the
    /// previous action asked for: `None` for success, `Some(e)` for a failed
    /// status (ignored in the initial step, which follows no call, and after
    /// a release, which is best-effort).
    pub fn step(self, outcome: Option<Error>) -> (r: (Self, RegisterAction))
        requires
            self.inv(),
            !(self.phase() is Finished),
        ensures
            r.0.inv(),
            r.0.backend_available() == self.backend_available(),
            self.phase() is Init && !self.backend_available() ==> r.0.phase() is Finished
                && !r.0.created() && r.1 == RegisterAction::Finish(
                Err::<(), RegisterError>(RegisterError::MissingFeature),
            ),
            self.phase() is Init && self.backend_available() ==> r.0.phase() is Creating && r.1
                == RegisterAction::CallCreate,
            self.phase() is Creating && outcome is None ==> r.0.phase() is Updating
                && r.0.created() && r.1 == RegisterAction::CallUpdate,
            self.phase() is Creating && outcome is Some ==> r.0.phase() is Finished
                && !r.0.created() && r.1 == RegisterAction::Finish(
                Err::<(), RegisterError>(RegisterError::Native(outcome.unwrap())),
            ),
            self.phase() is Updating && outcome is None ==> r.0.phase() is Appending && r.1
                == RegisterAction::CallAppend,
            self.phase() is Updating && outcome is Some ==> r.0.phase()
                == RegisterPhase::ReleasingThenFail(outcome.unwrap()) && r.1
                == RegisterAction::CallRelease,
            self.phase() is Appending && outcome is None ==> r.0.phase() is ReleasingThenOk && r.1
                == RegisterAction::CallRelease,
            self.phase() is Appending && outcome is Some ==> r.0.phase()
                == RegisterPhase::ReleasingThenFail(outcome.unwrap()) && r.1
                == RegisterAction::CallRelease,
            self.phase() is ReleasingThenOk ==> r.0.phase() is Finished && r.1
                == RegisterAction::Finish(Ok::<(), RegisterError>(())),
            self.phase() is ReleasingThenFail ==> r.0.phase() is Finished && r.1
                == RegisterAction::Finish(
                Err::<(), RegisterError>(RegisterError::Native(self.phase()->ReleasingThenFail_0)),
            ),
            r.0.created() == (self.created() || (self.phase() is Creating && outcome is None)),
            r.0.releases() == if r.0.phase() is ReleasingThenOk || r.0.phase() is ReleasingThenFail
                || (r.0.phase() is Finished && r.0.created()) {
                1u32
            } else {
                0u32
            },
    {
        let RegisterSequence { phase, backend_available, created, releases } = self;
        match phase {
            RegisterPhase::Init => {
                if backend_available {
                    (
                        RegisterSequence {
                            phase: RegisterPhase::Creating,
                            backend_available,
                            created,
                            releases,
                        },
                        RegisterAction::CallCreate,
                    )
                } else {
                    (
                        RegisterSequence {
                            phase: RegisterPhase::Finished,
                            backend_available,
                            created,
                            releases,
                        },
                        RegisterAction::Finish(Err(RegisterError::MissingFeature)),
                    )
                }
            },
            RegisterPhase::Creating => {
                match outcome {
                    None => (
                        RegisterSequence {
                            phase: RegisterPhase::Updating,
                            backend_available,
                            created: true,
                            releases,
                        },
                        RegisterAction::CallUpdate,
                    ),
                    Some(e) => (
                        RegisterSequence {
                            phase: RegisterPhase::Finished,
                            backend_available,
                            created,
                            releases,
                        },
                        RegisterAction::Finish(Err(RegisterError::Native(e))),
                    ),
                }
            },
            RegisterPhase::Updating => {
                match outcome {
                    None => (
                        RegisterSequence {
                            phase: RegisterPhase::Appending,
                            backend_available,
                            created,
                            releases,
                        },
                        RegisterAction::CallAppend,
                    ),
                    Some(e) => (
                        RegisterSequence {
                            phase: RegisterPhase::ReleasingThenFail(e),
                            backend_available,
                            created,
                            releases: releases + 1,
                        },
                        RegisterAction::CallRelease,
                    ),
                }
            },
            RegisterPhase::Appending => {
                match outcome {
                    None => (
                        RegisterSequence {
                            phase: RegisterPhase::ReleasingThenOk,
                            backend_available,
                            created,
                            releases: releases + 1,
                        },
                        RegisterAction::CallRelease,
                    ),
                    Some(e) => (
                        RegisterSequence {
                            phase: RegisterPhase::ReleasingThenFail(e),
                            backend_available,
                            created,
                            releases: releases + 1,
                        },
                        RegisterAction::CallRelease,
                    ),
                }
            },
            RegisterPhase::ReleasingThenOk => (
                RegisterSequence {
                    phase: RegisterPhase::Finished,
                    backend_available,
                    created,
                    releases,
                },
                RegisterAction::Finish(Ok(())),
            ),
            RegisterPhase::ReleasingThenFail(e) => (
                RegisterSequence {
                    phase: RegisterPhase::Finished,
                    backend_available,
                    created,
                    releases,
                },
                RegisterAction::Finish(Err(RegisterError::Native(e))),
            ),
            RegisterPhase::Finished => unreached(),
        }
    }
}

/// On every finished sequence, the native options object was released exactly
/// once when its creation succeeded, and never when it did not — so no handle
/// leaks and none is freed twice, whichever calls failed.
pub proof fn lemma_release_discipline(m: RegisterSequence)
    requires
        m.inv(),
        m.phase() is Finished,
    ensures
        m.created() ==> m.releases() == 1,
        !m.created() ==> m.releases() == 0,
{
}

} // verus!
