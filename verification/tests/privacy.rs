use video_service::error::CaptureError;
use video_service::privacy::{
    check_privacy_mode_changed, create_capturer, get_privacy_mode_conn_id,
    is_capturer_mag_supported, is_privacy_mode_supported, set_privacy_mode_conn_id,
    support_query_due,
    CapturerAction, CapturerEvent, ExcludeOutcome, MagInitializer, PrivacyCapability,
    PrivacyCheck, PrivacyModeOwner,
};

#[test]
fn owner_is_set_and_read() {
    let mut owner = PrivacyModeOwner { conn_id: 0 };
    assert_eq!(get_privacy_mode_conn_id(&owner), 0);
    set_privacy_mode_conn_id(&mut owner, 3);
    assert_eq!(get_privacy_mode_conn_id(&owner), 3);
    set_privacy_mode_conn_id(&mut owner, 0);
    assert_eq!(get_privacy_mode_conn_id(&owner), 0);
}

#[test]
fn takeover_notifies_all_but_the_new_owner() {
    let mut owner = PrivacyModeOwner { conn_id: 3 };
    assert_eq!(check_privacy_mode_changed(&owner, 3), PrivacyCheck::Unchanged);
    set_privacy_mode_conn_id(&mut owner, 7);
    assert_eq!(
        check_privacy_mode_changed(&owner, 3),
        PrivacyCheck::Changed { notify_others_than: Some(7) }
    );
}

#[test]
fn release_of_privacy_mode_notifies_nobody() {
    let owner = PrivacyModeOwner { conn_id: 0 };
    assert_eq!(
        check_privacy_mode_changed(&owner, 3),
        PrivacyCheck::Changed { notify_others_than: None }
    );
    assert_eq!(check_privacy_mode_changed(&owner, 0), PrivacyCheck::Unchanged);
}

#[test]
fn magnifier_record() {
    assert!(!MagInitializer::new(None).is_succeeded);
    assert!(!MagInitializer::new(Some(false)).is_succeeded);
    let mut m = MagInitializer::new(Some(true));
    assert!(m.is_succeeded);
    assert!(m.uninit_due());
    assert_eq!(m.uninit(false), Err(CaptureError::ReleaseMagnifier));
    assert!(m.is_succeeded);
    assert_eq!(m.uninit(true), Ok(()));
    assert!(!m.is_succeeded);
    assert!(!m.uninit_due());
    assert_eq!(m.uninit(false), Ok(()));
}

#[test]
fn magnifier_support_needs_init_and_platform() {
    let ok = MagInitializer::new(Some(true));
    let failed = MagInitializer::new(Some(false));
    assert!(is_capturer_mag_supported(&ok, true));
    assert!(!is_capturer_mag_supported(&ok, false));
    assert!(!is_capturer_mag_supported(&failed, true));
}

#[test]
fn capability_is_probed_once() {
    let mut cap = PrivacyCapability::new();
    assert!(cap.needs_init());
    assert!(!is_privacy_mode_supported(&cap));
    cap.init_once(Some(false), true);
    assert!(!cap.needs_init());
    assert!(!is_privacy_mode_supported(&cap));
    // a later probe changes nothing
    cap.init_once(Some(true), true);
    assert!(!is_privacy_mode_supported(&cap));
    assert!(!cap.is_available());

    let mut cap = PrivacyCapability::new();
    cap.init_once(Some(true), true);
    assert!(is_privacy_mode_supported(&cap));
    cap.init_once(None, false);
    assert!(is_privacy_mode_supported(&cap));
    assert_eq!(cap.teardown(false), Err(CaptureError::ReleaseMagnifier));
    assert_eq!(cap.teardown(true), Ok(()));
    assert!(!cap.initializer.is_succeeded);
}

#[test]
fn capability_without_platform_support() {
    let mut cap = PrivacyCapability::new();
    cap.init_once(Some(true), false);
    assert!(!is_privacy_mode_supported(&cap));
    let mut cap = PrivacyCapability::new();
    cap.init_once(None, true);
    assert!(!is_privacy_mode_supported(&cap));
}

#[test]
fn capturer_kind_follows_privacy_owner_and_support() {
    let start = |privacy_mode_id| create_capturer(CapturerEvent::Start { privacy_mode_id });
    assert_eq!(start(7), CapturerAction::QuerySupport);
    assert_eq!(start(1), CapturerAction::QuerySupport);
    assert_eq!(start(0), CapturerAction::CreateStandard);
    assert_eq!(start(-1), CapturerAction::CreateStandard);
    assert_eq!(
        create_capturer(CapturerEvent::SupportKnown { privacy_supported: true }),
        CapturerAction::CreateMagnifier
    );
    assert_eq!(
        create_capturer(CapturerEvent::SupportKnown { privacy_supported: false }),
        CapturerAction::CreateStandard
    );
}

#[test]
fn platform_support_is_asked_only_after_a_successful_init() {
    assert!(support_query_due(Some(true)));
    assert!(!support_query_due(Some(false)));
    assert!(!support_query_due(None));
}

#[test]
fn first_claim_of_privacy_mode_notifies_nobody() {
    // the session was built for no holder: nobody is superseded
    let owner = PrivacyModeOwner { conn_id: 7 };
    assert_eq!(
        check_privacy_mode_changed(&owner, 0),
        PrivacyCheck::Changed { notify_others_than: None }
    );
    assert_eq!(
        check_privacy_mode_changed(&owner, -2),
        PrivacyCheck::Changed { notify_others_than: Some(7) }
    );
}

#[test]
fn standard_capturer_steps() {
    assert_eq!(create_capturer(CapturerEvent::StandardCreated { ok: true }), CapturerAction::Ready);
    assert_eq!(
        create_capturer(CapturerEvent::StandardCreated { ok: false }),
        CapturerAction::Fail(CaptureError::CreateCapturer)
    );
}

#[test]
fn privacy_capturer_retries_exclusion_for_five_seconds() {
    assert_eq!(
        create_capturer(CapturerEvent::MagnifierCreated { ok: true }),
        CapturerAction::TryExclude
    );
    assert_eq!(
        create_capturer(CapturerEvent::ExcludeTried { outcome: ExcludeOutcome::NotYet }),
        CapturerAction::Pause { millis: 500 }
    );
    assert_eq!(
        create_capturer(CapturerEvent::Paused { elapsed: 500_000 }),
        CapturerAction::TryExclude
    );
    assert_eq!(
        create_capturer(CapturerEvent::Paused { elapsed: 4_999_999 }),
        CapturerAction::TryExclude
    );
    assert_eq!(
        create_capturer(CapturerEvent::Paused { elapsed: 5_000_000 }),
        CapturerAction::Fail(CaptureError::ExcludeTimedOut)
    );
    assert_eq!(
        create_capturer(CapturerEvent::ExcludeTried { outcome: ExcludeOutcome::Excluded }),
        CapturerAction::Ready
    );
}

#[test]
fn privacy_capturer_fails_at_once_on_a_definite_error() {
    assert_eq!(
        create_capturer(CapturerEvent::MagnifierCreated { ok: false }),
        CapturerAction::Fail(CaptureError::CreateMagnifier)
    );
    assert_eq!(
        create_capturer(CapturerEvent::ExcludeTried { outcome: ExcludeOutcome::Failed }),
        CapturerAction::Fail(CaptureError::ExcludeWindow)
    );
}
