//! The steps of one delivery. The caller performs each action against the
//! store and the chat network and reports what came of it; the rules here say
//! what is done next. A delivery either runs through to one sent message or
//! stops at the first failure. Repeated registrations, invites and joins are
//! left to the chat network to absorb: it reports them as done.
use vstd::prelude::*;

verus! {

/// Which outside service failed.
#[derive(Debug, Clone, Copy, PartialEq, Eq, Structural)]
pub enum Failure {
    /// The webhook store could not be read.
    Storage,
    /// A call to the chat network failed.
    Upstream,
}

/// Why a delivery stopped.
#[derive(Debug, Clone, Copy, PartialEq, Eq, Structural)]
pub enum DeliveryError {
    /// The store holds no webhook of that id.
    NotFound,
    /// The primary identity is not in the webhook's room, so it cannot invite.
    BotNotJoined,
    /// The store failed.
    Storage,
    /// The chat network failed.
    Upstream,
    /// An event was reported that the step before it cannot give.
    OutOfOrder,
}

/// Where a delivery stands. Each phase but the two last names the action that
/// is under way.
#[derive(Debug, Clone, Copy, PartialEq, Eq, Structural)]
pub enum Phase {
    Start,
    LookingUp,
    Provisioning,
    Syncing,
    CheckingMembership,
    Inviting,
    Joining,
    Sending,
    Finished,
    Aborted(DeliveryError),
}

/// What the caller reports.
#[derive(Debug, Clone, Copy, PartialEq, Eq, Structural)]
pub enum Event {
    /// A payload arrived.
    Begin,
    /// The store holds the webhook.
    Found,
    /// The store holds no such webhook.
    Missing,
    /// The action under way succeeded.
    Done,
    /// The chat network refused an invite or a join because it had been done
    /// before, by this delivery or by another one that runs beside it.
    Redundant,
    /// Whether the webhook's identity has joined the room.
    Membership { joined: bool },
    /// The primary identity has not joined the room.
    BotRoomMissing,
    /// The action under way failed.
    Failed(Failure),
}

/// What the caller does next.
#[derive(Debug, Clone, Copy, PartialEq, Eq, Structural)]
pub enum Action {
    /// Wait for a payload.
    Await,
    /// Look the webhook up by its id.
    LookUp,
    /// Derive the localpart and bring the identity's profile up to date.
    Provision,
    /// Sync the identity's view of its rooms.
    Sync,
    /// Ask whether the identity has joined the webhook's room.
    CheckMembership,
    /// Have the primary identity invite the webhook's identity.
    Invite,
    /// Have the webhook's identity join.
    Join,
    /// Compose the message and send it as the webhook's identity.
    Send,
    /// Report success.
    Finish,
    /// Report the failure.
    Abort(DeliveryError),
}

/// The error that a failed outside call becomes.
pub open spec fn error_of(failure: Failure) -> DeliveryError {
    match failure {
        Failure::Storage => DeliveryError::Storage,
        Failure::Upstream => DeliveryError::Upstream,
    }
}

/// A delivery that has ended.
pub open spec fn is_terminal(phase: Phase) -> bool {
    phase is Finished || phase is Aborted
}

/// The phase that follows `phase` on `event`.
pub open spec fn next(phase: Phase, event: Event) -> Phase {
    if is_terminal(phase) {
        phase
    } else {
        match (phase, event) {
            (_, Event::Failed(failure)) => Phase::Aborted(error_of(failure)),
            (Phase::Start, Event::Begin) => Phase::LookingUp,
            (Phase::LookingUp, Event::Found) => Phase::Provisioning,
            (Phase::LookingUp, Event::Missing) => Phase::Aborted(DeliveryError::NotFound),
            (Phase::Provisioning, Event::Done) => Phase::Syncing,
            (Phase::Syncing, Event::Done) => Phase::CheckingMembership,
            (Phase::CheckingMembership, Event::Membership { joined: true }) => Phase::Sending,
            (Phase::CheckingMembership, Event::Membership { joined: false }) => Phase::Inviting,
            (Phase::Inviting, Event::BotRoomMissing) => Phase::Aborted(
                DeliveryError::BotNotJoined,
            ),
            (Phase::Inviting, Event::Done) => Phase::Joining,
            (Phase::Inviting, Event::Redundant) => Phase::Joining,
            (Phase::Joining, Event::Done) => Phase::Sending,
            (Phase::Joining, Event::Redundant) => Phase::Sending,
            (Phase::Sending, Event::Done) => Phase::Finished,
            _ => Phase::Aborted(DeliveryError::OutOfOrder),
        }
    }
}

/// The action that belongs to a phase.
pub open spec fn action_of(phase: Phase) -> Action {
    match phase {
        Phase::Start => Action::Await,
        Phase::LookingUp => Action::LookUp,
        Phase::Provisioning => Action::Provision,
        Phase::Syncing => Action::Sync,
        Phase::CheckingMembership => Action::CheckMembership,
        Phase::Inviting => Action::Invite,
        Phase::Joining => Action::Join,
        Phase::Sending => Action::Send,
        Phase::Finished => Action::Finish,
        Phase::Aborted(e) => Action::Abort(e),
    }
}

/// How far a delivery has come: every step moves it forward.
pub open spec fn rank(phase: Phase) -> nat {
    match phase {
        Phase::Start => 0,
        Phase::LookingUp => 1,
        Phase::Provisioning => 2,
        Phase::Syncing => 3,
        Phase::CheckingMembership => 4,
        Phase::Inviting => 5,
        Phase::Joining => 6,
        Phase::Sending => 7,
        Phase::Finished => 8,
        Phase::Aborted(_) => 8,
    }
}

/// The phase after all of `events`, from `phase` on.
pub open spec fn run(phase: Phase, events: Seq<Event>) -> Phase
    decreases events.len(),
{
    if events.len() == 0 {
        phase
    } else {
        next(run(phase, events.drop_last()), events.last())
    }
}

impl Phase {
    /// The phase in which every delivery begins.
    pub fn start() -> (phase: Phase)
        ensures
            phase == Phase::Start,
    {
        Phase::Start
    }

    /// Whether the delivery has ended.
    pub fn is_terminal(&self) -> (ended: bool)
        ensures
            ended == is_terminal(*self),
    {
        match self {
            Phase::Finished => true,
            Phase::Aborted(_) => true,
            _ => false,
        }
    }

    /// The phase that follows on `event`. A failure ends the delivery from any
    /// phase; an ended delivery stays as it is; an invite or a join that had
    /// been done before counts as done.
    pub fn step(self, event: Event) -> (after: Phase)
        ensures
            after == next(self, event),
    {
        if self.is_terminal() {
            return self;
        }
        match (self, event) {
            (_, Event::Failed(Failure::Storage)) => Phase::Aborted(DeliveryError::Storage),
            (_, Event::Failed(Failure::Upstream)) => Phase::Aborted(DeliveryError::Upstream),
            (Phase::Start, Event::Begin) => Phase::LookingUp,
            (Phase::LookingUp, Event::Found) => Phase::Provisioning,
            (Phase::LookingUp, Event::Missing) => Phase::Aborted(DeliveryError::NotFound),
            (Phase::Provisioning, Event::Done) => Phase::Syncing,
            (Phase::Syncing, Event::Done) => Phase::CheckingMembership,
            (Phase::CheckingMembership, Event::Membership { joined }) => if joined {
                Phase::Sending
            } else {
                Phase::Inviting
            },
            (Phase::Inviting, Event::BotRoomMissing) => Phase::Aborted(
                DeliveryError::BotNotJoined,
            ),
            (Phase::Inviting, Event::Done) => Phase::Joining,
            (Phase::Inviting, Event::Redundant) => Phase::Joining,
            (Phase::Joining, Event::Done) => Phase::Sending,
            (Phase::Joining, Event::Redundant) => Phase::Sending,
            (Phase::Sending, Event::Done) => Phase::Finished,
            _ => Phase::Aborted(DeliveryError::OutOfOrder),
        }
    }

    /// What the caller is to do in this phase.
    pub fn action(&self) -> (todo: Action)
        ensures
            todo == action_of(*self),
    {
        match self {
            Phase::Start => Action::Await,
            Phase::LookingUp => Action::LookUp,
            Phase::Provisioning => Action::Provision,
            Phase::Syncing => Action::Sync,
            Phase::CheckingMembership => Action::CheckMembership,
            Phase::Inviting => Action::Invite,
            Phase::Joining => Action::Join,
            Phase::Sending => Action::Send,
            Phase::Finished => Action::Finish,
            Phase::Aborted(e) => Action::Abort(*e),
        }
    }
}

impl DeliveryError {
    /// The words in which the failure is reported.
    pub fn message(&self) -> (text: &'static str)
        ensures
            text@ == match *self {
                DeliveryError::NotFound => "Could not find webhook"@,
                DeliveryError::BotNotJoined => "Couldn't get joined room from bot"@,
                DeliveryError::Storage => "Failed to read the webhook store"@,
                DeliveryError::Upstream => "The chat network refused the request"@,
                DeliveryError::OutOfOrder => "Delivery steps were reported out of order"@,
            },
    {
        match self {
            DeliveryError::NotFound => "Could not find webhook",
            DeliveryError::BotNotJoined => "Couldn't get joined room from bot",
            DeliveryError::Storage => "Failed to read the webhook store",
            DeliveryError::Upstream => "The chat network refused the request",
            DeliveryError::OutOfOrder => "Delivery steps were reported out of order",
        }
    }
}

/// The answer to the sender of a payload.
#[derive(Debug, Clone, PartialEq, Eq)]
pub struct Reply {
    /// HTTP status.
    pub status: u16,
    /// The `success` member of the body.
    pub success: bool,
    /// The `message` member of the body; absent on success.
    pub message: Option<String>,
}

/// The answer for a delivery's outcome: 200 and `success` for one that went
/// through, 500 and the failure's words for one that did not.
pub fn reply_for(outcome: Result<(), String>) -> (reply: Reply)
    ensures
        match outcome {
            Ok(_) => reply.status == 200 && reply.success && reply.message is None,
            Err(words) => reply.status == 500 && !reply.success && reply.message == Some(words),
        },
{
    match outcome {
        Ok(_) => Reply { status: 200, success: true, message: None },
        Err(words) => Reply { status: 500, success: false, message: Some(words) },
    }
}

/// A failed action ends the delivery, whatever the phase: nothing after it is
/// attempted.
pub proof fn lemma_failure_aborts(phase: Phase, failure: Failure)
    requires
        !is_terminal(phase),
    ensures
        next(phase, Event::Failed(failure)) == Phase::Aborted(error_of(failure)),
        action_of(next(phase, Event::Failed(failure))) == Action::Abort(error_of(failure)),
{
}

/// A delivery that has not ended moves strictly forward on every event, so no
/// action is ever asked for twice.
pub proof fn lemma_step_advances(phase: Phase, event: Event)
    requires
        !is_terminal(phase),
    ensures
        rank(next(phase, event)) > rank(phase),
{
}

/// Along any run the rank never falls.
pub proof fn lemma_run_monotone(phase: Phase, events: Seq<Event>)
    ensures
        rank(run(phase, events)) >= rank(phase),
        is_terminal(phase) ==> run(phase, events) == phase,
    decreases events.len(),
{
    if events.len() > 0 {
        lemma_run_monotone(phase, events.drop_last());
        let before = run(phase, events.drop_last());
        if !is_terminal(before) {
            lemma_step_advances(before, events.last());
        }
    }
}

/// The message is sent only with the identity in the room: the phase
/// `Sending` is entered from a membership check that found it joined, or from
/// a join that succeeded, and from nowhere else.
pub proof fn lemma_send_needs_membership(phase: Phase, event: Event)
    requires
        next(phase, event) == Phase::Sending,
        phase != Phase::Sending,
    ensures
        (phase == Phase::CheckingMembership && event == (Event::Membership { joined: true }))
            || (phase == Phase::Joining && (event == Event::Done || event == Event::Redundant)),
{
}

/// Whether `event` reports an invite or a join as done, now or before.
pub open spec fn settles_handshake(event: Event) -> bool {
    event == Event::Done || event == Event::Redundant
}

/// Invite and join are safe to repeat. Of two deliveries that both found the
/// webhook's identity outside the room, each goes on to send its message,
/// whichever of them the chat network served first and whichever it told
/// that the step had been done before: neither ends in failure.
pub proof fn lemma_repeated_handshake_is_benign(
    first_invite: Event,
    first_join: Event,
    second_invite: Event,
    second_join: Event,
)
    requires
        settles_handshake(first_invite),
        settles_handshake(first_join),
        settles_handshake(second_invite),
        settles_handshake(second_join),
    ensures
        next(next(Phase::Inviting, first_invite), first_join) == Phase::Sending,
        next(next(Phase::Inviting, second_invite), second_join) == Phase::Sending,
        next(Phase::CheckingMembership, Event::Membership { joined: false }) == Phase::Inviting,
{
}

/// A webhook that the store does not hold never leads to a sent message,
/// whatever is reported afterwards.
pub proof fn lemma_missing_never_sends(events: Seq<Event>)
    ensures
        run(Phase::LookingUp, seq![Event::Missing] + events) == Phase::Aborted(
            DeliveryError::NotFound,
        ),
    decreases events.len(),
{
    let all = seq![Event::Missing] + events;
    if events.len() == 0 {
        assert(all.drop_last() =~= Seq::<Event>::empty());
        assert(run(Phase::LookingUp, all.drop_last()) == Phase::LookingUp);
    } else {
        assert(all.drop_last() =~= seq![Event::Missing] + events.drop_last());
        lemma_missing_never_sends(events.drop_last());
    }
}

} // verus!
