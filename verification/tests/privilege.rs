use dns_bootstrap::privilege::DropAction;
use dns_bootstrap::privilege::DropError;
use dns_bootstrap::privilege::DropEvent;
use dns_bootstrap::privilege::Phase;
use dns_bootstrap::privilege::PrivilegeDropper;
use dns_bootstrap::privilege::PrivilegeState;

const ROOT: PrivilegeState = PrivilegeState {
    uid: 0,
    gid: 0,
    euid: 0,
    egid: 0,
};

const USER: PrivilegeState = PrivilegeState {
    uid: 1000,
    gid: 1000,
    euid: 1000,
    egid: 1000,
};

const NOBODY: PrivilegeState = PrivilegeState {
    uid: 65534,
    gid: 65534,
    euid: 65534,
    egid: 65534,
};

fn dropper(user: &str, group: &str) -> PrivilegeDropper {
    PrivilegeDropper::new(user.to_string(), group.to_string(), true, false)
}

#[test]
fn unprivileged_process_skips_every_call() {
    let mut drop = dropper("nobody", "nobody");
    assert_eq!(drop.action(), DropAction::Snapshot);
    assert_eq!(drop.outcome(), None);
    drop.advance(DropEvent::Ids(USER));
    assert_eq!(drop.action(), DropAction::Finished);
    assert_eq!(drop.outcome(), Some(Ok((USER, USER))));
    assert_eq!(drop.error_message(), None);
    drop.advance(DropEvent::Ids(ROOT));
    drop.advance(DropEvent::Changed(true));
    assert_eq!(drop.outcome(), Some(Ok((USER, USER))));
}

#[test]
fn effective_superuser_counts_as_superuser() {
    let setuid_root = PrivilegeState {
        uid: 1000,
        gid: 1000,
        euid: 0,
        egid: 1000,
    };
    assert!(setuid_root.is_superuser());
    assert!(ROOT.is_superuser());
    assert!(!USER.is_superuser());
    let mut drop = dropper("nobody", "nobody");
    drop.advance(DropEvent::Ids(setuid_root));
    assert_eq!(drop.action(), DropAction::Resolve);
}

#[test]
fn superuser_drops_group_then_user() {
    let mut drop = dropper("nobody", "nobody");
    let mut actions = vec![drop.action()];
    for event in [
        DropEvent::Ids(ROOT),
        DropEvent::Resolved {
            uid: Some(65534),
            gid: Some(65533),
        },
        DropEvent::Changed(true),
        DropEvent::Changed(true),
        DropEvent::Ids(NOBODY),
    ] {
        drop.advance(event);
        actions.push(drop.action());
    }
    assert_eq!(
        actions,
        vec![
            DropAction::Snapshot,
            DropAction::Resolve,
            DropAction::SetGid(65533),
            DropAction::SetUid(65534),
            DropAction::Snapshot,
            DropAction::Finished,
        ]
    );
    assert_eq!(drop.outcome(), Some(Ok((ROOT, NOBODY))));
}

#[test]
fn unknown_group_fails_before_any_change() {
    let mut drop = dropper("nobody", "nogroup");
    drop.advance(DropEvent::Ids(ROOT));
    drop.advance(DropEvent::Resolved {
        uid: Some(65534),
        gid: None,
    });
    assert_eq!(drop.action(), DropAction::Finished);
    assert_eq!(drop.outcome(), Some(Err(DropError::UnknownGroup)));
    assert_eq!(
        drop.error_message(),
        Some("unable to lookup group 'nogroup'. Exiting.".to_string())
    );
    drop.advance(DropEvent::Changed(true));
    assert_eq!(drop.action(), DropAction::Finished);
    assert_eq!(drop.phase, Phase::Failed(DropError::UnknownGroup));
}

#[test]
fn unknown_user_is_reported_first() {
    let mut drop = dropper("ghost", "nogroup");
    drop.advance(DropEvent::Ids(ROOT));
    drop.advance(DropEvent::Resolved {
        uid: None,
        gid: None,
    });
    assert_eq!(drop.outcome(), Some(Err(DropError::UnknownUser)));
    assert_eq!(
        drop.error_message(),
        Some("unable to lookup user 'ghost'. Exiting.".to_string())
    );
}

#[test]
fn failed_group_change_never_changes_the_user() {
    let mut drop = dropper("nobody", "nobody");
    drop.advance(DropEvent::Ids(ROOT));
    drop.advance(DropEvent::Resolved {
        uid: Some(1),
        gid: Some(2),
    });
    assert_eq!(drop.action(), DropAction::SetGid(2));
    drop.advance(DropEvent::Changed(false));
    assert_eq!(drop.action(), DropAction::Finished);
    assert_eq!(drop.outcome(), Some(Err(DropError::SetGidFailed)));
    assert_eq!(
        drop.error_message(),
        Some("unable to set gid. Exiting.".to_string())
    );
}

#[test]
fn failed_user_change_is_fatal() {
    let mut drop = dropper("nobody", "nobody");
    drop.advance(DropEvent::Ids(ROOT));
    drop.advance(DropEvent::Resolved {
        uid: Some(1),
        gid: Some(2),
    });
    drop.advance(DropEvent::Changed(true));
    assert_eq!(drop.action(), DropAction::SetUid(1));
    drop.advance(DropEvent::Changed(false));
    assert_eq!(drop.outcome(), Some(Err(DropError::SetUidFailed)));
    assert_eq!(
        drop.error_message(),
        Some("unable to set uid. Exiting.".to_string())
    );
}

#[test]
fn names_with_nul_are_refused() {
    let mut drop = dropper("no\0body", "nobody");
    drop.advance(DropEvent::Ids(ROOT));
    assert_eq!(drop.outcome(), Some(Err(DropError::InvalidUserName)));
    assert_eq!(
        drop.error_message(),
        Some("unable to create CString for user no\0body".to_string())
    );
    let mut drop = dropper("nobody", "no\0body");
    drop.advance(DropEvent::Ids(ROOT));
    assert_eq!(drop.outcome(), Some(Err(DropError::InvalidGroupName)));
    assert_eq!(
        drop.error_message(),
        Some("unable to create CString for group no\0body. Exiting.".to_string())
    );
    let mut drop = dropper("no\0body", "nobody");
    drop.advance(DropEvent::Ids(USER));
    assert_eq!(drop.outcome(), Some(Ok((USER, USER))));
}

#[test]
fn event_that_answers_no_call_is_ignored() {
    let mut drop = dropper("nobody", "nobody");
    drop.advance(DropEvent::Changed(true));
    drop.advance(DropEvent::Resolved {
        uid: Some(1),
        gid: Some(2),
    });
    assert_eq!(drop.phase, Phase::Start);
    drop.advance(DropEvent::Ids(ROOT));
    drop.advance(DropEvent::Ids(ROOT));
    drop.advance(DropEvent::Changed(true));
    assert_eq!(drop.phase, Phase::Resolving { before: ROOT });
}

#[test]
fn platform_without_privileges() {
    let drop = PrivilegeDropper::new("nobody".to_string(), "nobody".to_string(), false, true);
    assert_eq!(drop.action(), DropAction::Finished);
    assert_eq!(drop.outcome(), Some(Err(DropError::Unsupported)));
    assert_eq!(
        drop.error_message(),
        Some("dropping privileges is only supported on Unix systems".to_string())
    );
    let drop = PrivilegeDropper::new("nobody".to_string(), "nobody".to_string(), false, false);
    assert_eq!(drop.action(), DropAction::Finished);
    let none = PrivilegeState {
        uid: u32::MAX,
        gid: u32::MAX,
        euid: u32::MAX,
        egid: u32::MAX,
    };
    assert_eq!(drop.outcome(), Some(Ok((none, none))));
    assert!(!none.is_superuser());
}
