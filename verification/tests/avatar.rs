use webhook_bridge::avatar::{
    check_avatar, judge_avatar, needs_upload, same_bytes, AvatarFetchError, AvatarResponse,
    ContentType,
};
use webhook_bridge::provision::{ProvisionAction, ProvisionError, ProvisionEvent, ProvisionPhase};

fn response(status: u16, content_type: ContentType, body: &[u8]) -> AvatarResponse {
    AvatarResponse { status, content_type, body: body.to_vec() }
}

fn png() -> ContentType {
    ContentType::Text("image/png".to_string())
}

#[test]
fn good_response_gives_avatar() {
    let avatar = check_avatar(response(200, png(), &[1, 2, 3])).unwrap();
    assert_eq!(avatar.mime, "image/png");
    assert_eq!(avatar.bytes, vec![1, 2, 3]);
    assert!(check_avatar(response(299, png(), &[0])).is_ok());
}

#[test]
fn each_defect_is_named() {
    assert_eq!(check_avatar(response(404, png(), &[1])).unwrap_err(), AvatarFetchError::Status);
    assert_eq!(check_avatar(response(199, png(), &[1])).unwrap_err(), AvatarFetchError::Status);
    assert_eq!(check_avatar(response(300, png(), &[1])).unwrap_err(), AvatarFetchError::Status);
    assert_eq!(
        check_avatar(response(200, ContentType::Missing, &[1])).unwrap_err(),
        AvatarFetchError::MissingContentType
    );
    assert_eq!(
        check_avatar(response(200, ContentType::NotText, &[1])).unwrap_err(),
        AvatarFetchError::ContentTypeNotText
    );
    assert_eq!(
        check_avatar(response(200, ContentType::Text("not a mime".to_string()), &[1])).unwrap_err(),
        AvatarFetchError::ContentTypeNotMime
    );
    assert_eq!(
        check_avatar(response(200, png(), &[])).unwrap_err(),
        AvatarFetchError::EmptyBody
    );
}

#[test]
fn first_defect_wins() {
    assert_eq!(
        check_avatar(response(500, ContentType::Missing, &[])).unwrap_err(),
        AvatarFetchError::Status
    );
    assert_eq!(
        check_avatar(response(200, ContentType::Missing, &[])).unwrap_err(),
        AvatarFetchError::MissingContentType
    );
    assert_eq!(
        judge_avatar(response(200, png(), &[]), false).unwrap_err(),
        AvatarFetchError::ContentTypeNotMime
    );
    assert!(judge_avatar(response(200, png(), &[7]), true).is_ok());
}

#[test]
fn equal_avatar_is_not_uploaded() {
    let fetched = vec![1u8, 2, 3];
    assert!(!needs_upload(&Some(vec![1, 2, 3]), &fetched));
    assert!(needs_upload(&Some(vec![1, 2, 4]), &fetched));
    assert!(needs_upload(&Some(vec![1, 2]), &fetched));
    assert!(needs_upload(&None, &fetched));
    assert!(same_bytes(&Vec::new(), &Vec::new()));
    assert!(!same_bytes(&vec![0], &Vec::new()));

    let phase = ProvisionPhase::ComparingAvatar.step(ProvisionEvent::Compared { upload: false });
    assert_eq!(phase, ProvisionPhase::Ready { avatar_synced: true });
    assert_eq!(phase.action(), ProvisionAction::Proceed);
    let phase = ProvisionPhase::ComparingAvatar.step(ProvisionEvent::Compared { upload: true });
    assert_eq!(phase.action(), ProvisionAction::UploadAvatar);
}

#[test]
fn provisioning_in_order() {
    let mut phase = ProvisionPhase::start();
    let mut actions = vec![phase.action()];
    for e in [
        ProvisionEvent::Done,
        ProvisionEvent::Done,
        ProvisionEvent::Fetched { usable: true },
        ProvisionEvent::Compared { upload: true },
        ProvisionEvent::Done,
    ] {
        phase = phase.step(e);
        actions.push(phase.action());
    }
    assert_eq!(
        actions,
        vec![
            ProvisionAction::Register,
            ProvisionAction::SetDisplayName,
            ProvisionAction::FetchAvatar,
            ProvisionAction::CompareAvatar,
            ProvisionAction::UploadAvatar,
            ProvisionAction::Proceed,
        ]
    );
    assert_eq!(phase, ProvisionPhase::Ready { avatar_synced: true });
    assert_eq!(phase.step(ProvisionEvent::Failed), phase);
}

#[test]
fn identity_failures_are_fatal() {
    let failed = ProvisionPhase::Registering.step(ProvisionEvent::Failed);
    assert_eq!(failed, ProvisionPhase::Failed(ProvisionError::Registration));
    assert_eq!(failed.action(), ProvisionAction::Abort(ProvisionError::Registration));
    assert_eq!(
        ProvisionPhase::Naming.step(ProvisionEvent::Failed),
        ProvisionPhase::Failed(ProvisionError::DisplayName)
    );
    assert_eq!(
        ProvisionPhase::Registering.step(ProvisionEvent::Compared { upload: true }),
        ProvisionPhase::Failed(ProvisionError::OutOfOrder)
    );
}

#[test]
fn avatar_failures_are_not_fatal() {
    let ready = ProvisionPhase::Ready { avatar_synced: false };
    assert_eq!(ProvisionPhase::FetchingAvatar.step(ProvisionEvent::Failed), ready);
    assert_eq!(
        ProvisionPhase::FetchingAvatar.step(ProvisionEvent::Fetched { usable: false }),
        ready
    );
    assert_eq!(ProvisionPhase::Uploading.step(ProvisionEvent::Failed), ready);
    assert_eq!(
        ProvisionPhase::ComparingAvatar.step(ProvisionEvent::Failed),
        ProvisionPhase::Uploading
    );
}

#[test]
fn repeated_registration_is_benign() {
    assert_eq!(
        ProvisionPhase::Registering.step(ProvisionEvent::Redundant),
        ProvisionPhase::Naming
    );
    assert_eq!(
        ProvisionPhase::Naming.step(ProvisionEvent::Redundant),
        ProvisionPhase::Failed(ProvisionError::OutOfOrder)
    );
}
