use webhook_bridge::delivery::{reply_for, Action, DeliveryError, Event, Failure, Phase};

fn run(events: &[Event]) -> Phase {
    let mut phase = Phase::start();
    for e in events {
        phase = phase.step(*e);
    }
    phase
}

#[test]
fn delivery_to_joined_room() {
    let events = [
        Event::Begin,
        Event::Found,
        Event::Done,
        Event::Done,
        Event::Membership { joined: true },
    ];
    let mut phase = Phase::start();
    let mut actions = Vec::new();
    for e in events {
        phase = phase.step(e);
        actions.push(phase.action());
    }
    assert_eq!(
        actions,
        vec![Action::LookUp, Action::Provision, Action::Sync, Action::CheckMembership, Action::Send]
    );
    assert!(!phase.is_terminal());
    let end = phase.step(Event::Done);
    assert_eq!(end, Phase::Finished);
    assert_eq!(end.action(), Action::Finish);
    assert!(end.is_terminal());
}

#[test]
fn delivery_invites_then_joins() {
    let phase = run(&[
        Event::Begin,
        Event::Found,
        Event::Done,
        Event::Done,
        Event::Membership { joined: false },
    ]);
    assert_eq!(phase.action(), Action::Invite);
    let phase = phase.step(Event::Done);
    assert_eq!(phase.action(), Action::Join);
    let phase = phase.step(Event::Done);
    assert_eq!(phase.action(), Action::Send);
}

#[test]
fn missing_webhook_is_not_found() {
    let phase = run(&[Event::Begin, Event::Missing]);
    assert_eq!(phase, Phase::Aborted(DeliveryError::NotFound));
    assert_eq!(phase.action(), Action::Abort(DeliveryError::NotFound));
    assert_eq!(phase.step(Event::Done), phase);
    assert_eq!(DeliveryError::NotFound.message(), "Could not find webhook");
}

#[test]
fn bot_outside_room_aborts() {
    let phase = run(&[
        Event::Begin,
        Event::Found,
        Event::Done,
        Event::Done,
        Event::Membership { joined: false },
        Event::BotRoomMissing,
    ]);
    assert_eq!(phase, Phase::Aborted(DeliveryError::BotNotJoined));
    assert_eq!(DeliveryError::BotNotJoined.message(), "Couldn't get joined room from bot");
}

#[test]
fn any_failure_aborts() {
    let prefix = [
        Event::Begin,
        Event::Found,
        Event::Done,
        Event::Done,
        Event::Membership { joined: false },
        Event::Done,
        Event::Done,
    ];
    for n in 0..=prefix.len() {
        let phase = run(&prefix[..n]);
        assert_eq!(
            phase.step(Event::Failed(Failure::Upstream)),
            Phase::Aborted(DeliveryError::Upstream)
        );
        assert_eq!(
            phase.step(Event::Failed(Failure::Storage)),
            Phase::Aborted(DeliveryError::Storage)
        );
    }
}

#[test]
fn unexpected_event_aborts() {
    assert_eq!(Phase::start().step(Event::Done), Phase::Aborted(DeliveryError::OutOfOrder));
    assert_eq!(
        run(&[Event::Begin, Event::Begin]),
        Phase::Aborted(DeliveryError::OutOfOrder)
    );
    assert_eq!(Phase::Finished.step(Event::Begin), Phase::Finished);
    assert!(!DeliveryError::OutOfOrder.message().is_empty());
    assert!(!DeliveryError::Storage.message().is_empty());
    assert!(!DeliveryError::Upstream.message().is_empty());
}

#[test]
fn replies() {
    let ok = reply_for(Ok(()));
    assert_eq!((ok.status, ok.success, ok.message), (200, true, None));
    let bad = reply_for(Err("Could not find webhook".to_string()));
    assert_eq!(
        (bad.status, bad.success, bad.message),
        (500, false, Some("Could not find webhook".to_string()))
    );
}

#[test]
fn repeated_invite_and_join_are_benign() {
    let outside = run(&[
        Event::Begin,
        Event::Found,
        Event::Done,
        Event::Done,
        Event::Membership { joined: false },
    ]);
    for invite in [Event::Done, Event::Redundant] {
        for join in [Event::Done, Event::Redundant] {
            let phase = outside.step(invite).step(join);
            assert_eq!(phase, Phase::Sending);
            assert_eq!(phase.step(Event::Done), Phase::Finished);
        }
    }
    assert_eq!(
        Phase::Sending.step(Event::Redundant),
        Phase::Aborted(DeliveryError::OutOfOrder)
    );
}
