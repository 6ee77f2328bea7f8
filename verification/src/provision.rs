//! The steps that make a virtual identity ready to send: registration and
//! display name, which must succeed, and the picture, which may fail without
//! harm. Every step is safe to repeat, so the whole runs on each delivery.
use vstd::prelude::*;

verus! {

/// Why provisioning failed.
#[derive(Debug, Clone, Copy, PartialEq, Eq, Structural)]
pub enum ProvisionError {
    /// The identity could not be registered.
    Registration,
    /// The display name could not be set.
    DisplayName,
    /// An event was reported that the step before it cannot give.
    OutOfOrder,
}

/// Where provisioning stands.
#[derive(Debug, Clone, Copy, PartialEq, Eq, Structural)]
pub enum ProvisionPhase {
    Registering,
    Naming,
    FetchingAvatar,
    ComparingAvatar,
    Uploading,
    /// The identity can send. `avatar_synced` says whether its picture is
    /// known to be the wanted one.
    Ready { avatar_synced: bool },
    Failed(ProvisionError),
}

/// What the caller reports.
#[derive(Debug, Clone, Copy, PartialEq, Eq, Structural)]
pub enum ProvisionEvent {
    /// The action under way succeeded.
    Done,
    /// The identity was registered before.
    Redundant,
    /// The action under way failed.
    Failed,
    /// The picture was fetched; `usable` says whether it passed the checks.
    Fetched { usable: bool },
    /// The current picture was read and compared; `upload` says whether the
    /// fetched one differs from it.
    Compared { upload: bool },
}

/// What the caller does next.
#[derive(Debug, Clone, Copy, PartialEq, Eq, Structural)]
pub enum ProvisionAction {
    /// Register the identity; one that exists already counts as registered.
    Register,
    /// Set the display name.
    SetDisplayName,
    /// Fetch the picture and check it.
    FetchAvatar,
    /// Read the current picture and compare.
    CompareAvatar,
    /// Upload the fetched picture.
    UploadAvatar,
    /// Hand the identity to the sender.
    Proceed,
    /// Give up.
    Abort(ProvisionError),
}

/// Provisioning that has ended.
pub open spec fn is_settled(phase: ProvisionPhase) -> bool {
    phase is Ready || phase is Failed
}

/// The phase that follows `phase` on `event`.
pub open spec fn next(phase: ProvisionPhase, event: ProvisionEvent) -> ProvisionPhase {
    match (phase, event) {
        (ProvisionPhase::Ready { .. }, _) => phase,
        (ProvisionPhase::Failed(_), _) => phase,
        (ProvisionPhase::Registering, ProvisionEvent::Done) => ProvisionPhase::Naming,
        (ProvisionPhase::Registering, ProvisionEvent::Redundant) => ProvisionPhase::Naming,
        (ProvisionPhase::Registering, ProvisionEvent::Failed) => ProvisionPhase::Failed(
            ProvisionError::Registration,
        ),
        (ProvisionPhase::Naming, ProvisionEvent::Done) => ProvisionPhase::FetchingAvatar,
        (ProvisionPhase::Naming, ProvisionEvent::Failed) => ProvisionPhase::Failed(
            ProvisionError::DisplayName,
        ),
        (ProvisionPhase::FetchingAvatar, ProvisionEvent::Fetched { usable: true }) =>
            ProvisionPhase::ComparingAvatar,
        (ProvisionPhase::FetchingAvatar, ProvisionEvent::Fetched { usable: false }) =>
            ProvisionPhase::Ready { avatar_synced: false },
        (ProvisionPhase::FetchingAvatar, ProvisionEvent::Failed) => ProvisionPhase::Ready {
            avatar_synced: false,
        },
        (ProvisionPhase::ComparingAvatar, ProvisionEvent::Compared { upload: true }) =>
            ProvisionPhase::Uploading,
        (ProvisionPhase::ComparingAvatar, ProvisionEvent::Compared { upload: false }) =>
            ProvisionPhase::Ready { avatar_synced: true },
        (ProvisionPhase::ComparingAvatar, ProvisionEvent::Failed) => ProvisionPhase::Uploading,
        (ProvisionPhase::Uploading, ProvisionEvent::Done) => ProvisionPhase::Ready {
            avatar_synced: true,
        },
        (ProvisionPhase::Uploading, ProvisionEvent::Failed) => ProvisionPhase::Ready {
            avatar_synced: false,
        },
        _ => ProvisionPhase::Failed(ProvisionError::OutOfOrder),
    }
}

/// The action that belongs to a phase.
pub open spec fn action_of(phase: ProvisionPhase) -> ProvisionAction {
    match phase {
        ProvisionPhase::Registering => ProvisionAction::Register,
        ProvisionPhase::Naming => ProvisionAction::SetDisplayName,
        ProvisionPhase::FetchingAvatar => ProvisionAction::FetchAvatar,
        ProvisionPhase::ComparingAvatar => ProvisionAction::CompareAvatar,
        ProvisionPhase::Uploading => ProvisionAction::UploadAvatar,
        ProvisionPhase::Ready { .. } => ProvisionAction::Proceed,
        ProvisionPhase::Failed(e) => ProvisionAction::Abort(e),
    }
}

/// The phase after all of `events`, from `phase` on.
pub open spec fn run(phase: ProvisionPhase, events: Seq<ProvisionEvent>) -> ProvisionPhase
    decreases events.len(),
{
    if events.len() == 0 {
        phase
    } else {
        next(run(phase, events.drop_last()), events.last())
    }
}

/// Whether the picture is being handled: the phases in which a failure does
/// no harm.
pub open spec fn in_avatar_sync(phase: ProvisionPhase) -> bool {
    phase is FetchingAvatar || phase is ComparingAvatar || phase is Uploading
}

impl ProvisionPhase {
    /// The phase in which provisioning begins.
    pub fn start() -> (phase: ProvisionPhase)
        ensures
            phase == ProvisionPhase::Registering,
    {
        ProvisionPhase::Registering
    }

    /// The phase that follows on `event`. An identity that was registered
    /// before counts as registered. Failing to register or to set the name
    /// ends provisioning in failure. Any failure around the picture
    /// leaves the identity ready, and a picture equal to the current one is
    /// not uploaded.
    pub fn step(self, event: ProvisionEvent) -> (after: ProvisionPhase)
        ensures
            after == next(self, event),
    {
        match (self, event) {
            (ProvisionPhase::Ready { avatar_synced }, _) => ProvisionPhase::Ready { avatar_synced },
            (ProvisionPhase::Failed(e), _) => ProvisionPhase::Failed(e),
            (ProvisionPhase::Registering, ProvisionEvent::Done) => ProvisionPhase::Naming,
            (ProvisionPhase::Registering, ProvisionEvent::Redundant) => ProvisionPhase::Naming,
            (ProvisionPhase::Registering, ProvisionEvent::Failed) => ProvisionPhase::Failed(
                ProvisionError::Registration,
            ),
            (ProvisionPhase::Naming, ProvisionEvent::Done) => ProvisionPhase::FetchingAvatar,
            (ProvisionPhase::Naming, ProvisionEvent::Failed) => ProvisionPhase::Failed(
                ProvisionError::DisplayName,
            ),
            (ProvisionPhase::FetchingAvatar, ProvisionEvent::Fetched { usable }) => if usable {
                ProvisionPhase::ComparingAvatar
            } else {
                ProvisionPhase::Ready { avatar_synced: false }
            },
            (ProvisionPhase::FetchingAvatar, ProvisionEvent::Failed) => ProvisionPhase::Ready {
                avatar_synced: false,
            },
            (ProvisionPhase::ComparingAvatar, ProvisionEvent::Compared { upload }) => if upload {
                ProvisionPhase::Uploading
            } else {
                ProvisionPhase::Ready { avatar_synced: true }
            },
            (ProvisionPhase::ComparingAvatar, ProvisionEvent::Failed) => ProvisionPhase::Uploading,
            (ProvisionPhase::Uploading, ProvisionEvent::Done) => ProvisionPhase::Ready {
                avatar_synced: true,
            },
            (ProvisionPhase::Uploading, ProvisionEvent::Failed) => ProvisionPhase::Ready {
                avatar_synced: false,
            },
            _ => ProvisionPhase::Failed(ProvisionError::OutOfOrder),
        }
    }

    /// What the caller is to do in this phase.
    pub fn action(&self) -> (todo: ProvisionAction)
        ensures
            todo == action_of(*self),
    {
        match self {
            ProvisionPhase::Registering => ProvisionAction::Register,
            ProvisionPhase::Naming => ProvisionAction::SetDisplayName,
            ProvisionPhase::FetchingAvatar => ProvisionAction::FetchAvatar,
            ProvisionPhase::ComparingAvatar => ProvisionAction::CompareAvatar,
            ProvisionPhase::Uploading => ProvisionAction::UploadAvatar,
            ProvisionPhase::Ready { .. } => ProvisionAction::Proceed,
            ProvisionPhase::Failed(e) => ProvisionAction::Abort(*e),
        }
    }
}

/// Once the name is set, no failure of the picture's fetch, comparison or
/// upload makes provisioning fail: the only failure left is an event that
/// does not belong to the step.
pub proof fn lemma_avatar_failure_is_harmless(phase: ProvisionPhase, event: ProvisionEvent)
    requires
        in_avatar_sync(phase),
    ensures
        !(next(phase, ProvisionEvent::Failed) is Failed),
        next(phase, event) is Failed ==> next(phase, event) == ProvisionPhase::Failed(
            ProvisionError::OutOfOrder,
        ),
        phase is FetchingAvatar && event == (ProvisionEvent::Fetched { usable: false }) ==> next(
            phase,
            event,
        ) == (ProvisionPhase::Ready { avatar_synced: false }),
{
}

/// A fetched picture that equals the current one is never uploaded: from the
/// comparison that found no difference, no run reaches the upload.
pub proof fn lemma_equal_avatar_skips_upload(events: Seq<ProvisionEvent>)
    ensures
        run(
            next(ProvisionPhase::ComparingAvatar, ProvisionEvent::Compared { upload: false }),
            events,
        ) == (ProvisionPhase::Ready { avatar_synced: true }),
        action_of(
            run(
                next(ProvisionPhase::ComparingAvatar, ProvisionEvent::Compared { upload: false }),
                events,
            ),
        ) != ProvisionAction::UploadAvatar,
    decreases events.len(),
{
    if events.len() > 0 {
        lemma_equal_avatar_skips_upload(events.drop_last());
    }
}

/// Provisioning is safe to repeat: registering an identity that exists
/// leads on exactly as registering a new one.
pub proof fn lemma_repeated_registration_is_benign(events: Seq<ProvisionEvent>)
    ensures
        next(ProvisionPhase::Registering, ProvisionEvent::Redundant) == next(
            ProvisionPhase::Registering,
            ProvisionEvent::Done,
        ),
        run(next(ProvisionPhase::Registering, ProvisionEvent::Redundant), events) == run(
            next(ProvisionPhase::Registering, ProvisionEvent::Done),
            events,
        ),
{
}

/// Failing to register or to set the name is fatal.
pub proof fn lemma_identity_failure_is_fatal()
    ensures
        next(ProvisionPhase::Registering, ProvisionEvent::Failed) == ProvisionPhase::Failed(
            ProvisionError::Registration,
        ),
        next(ProvisionPhase::Naming, ProvisionEvent::Failed) == ProvisionPhase::Failed(
            ProvisionError::DisplayName,
        ),
{
}

} // verus!
