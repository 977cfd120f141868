use acme_redirect::bootstrap::{BootStep, Lifecycle};

fn drive(reports: &[bool]) -> (Vec<BootStep>, Lifecycle) {
    let mut state = Lifecycle::new();
    let mut steps = Vec::new();
    for ok in reports {
        if let Some(step) = state.next_step() {
            steps.push(step);
        }
        state = state.advance(*ok);
    }
    (steps, state)
}

#[test]
fn start_goes_through_every_state_in_order() {
    let mut state = Lifecycle::new();
    let expected = [
        (Lifecycle::Unconfigured, BootStep::LoadConfig),
        (Lifecycle::ConfigLoaded, BootStep::SetupDirectory),
        (Lifecycle::DirectorySetup, BootStep::ChangeDirectory),
        (Lifecycle::WorkingDirectoryChanged, BootStep::BindSocket),
        (Lifecycle::SocketBound, BootStep::DropPrivileges),
        (Lifecycle::PrivilegeDropped, BootStep::Serve),
    ];
    for (at, step) in expected {
        assert_eq!(state, at);
        assert!(!state.is_serving());
        assert_eq!(state.next_step(), Some(step));
        state = state.advance(true);
    }
    assert_eq!(state, Lifecycle::Serving);
    assert!(state.is_serving());
    assert_eq!(state.next_step(), None);
    assert_eq!(state.failure(), None);
}

#[test]
fn serving_comes_after_bind_and_privilege_drop() {
    let (steps, state) = drive(&[true; 6]);
    assert!(state.is_serving());
    let bind = steps.iter().position(|s| *s == BootStep::BindSocket).unwrap();
    let drop = steps.iter().position(|s| *s == BootStep::DropPrivileges).unwrap();
    let serve = steps.iter().position(|s| *s == BootStep::Serve).unwrap();
    assert!(bind < drop && drop < serve);
    assert_eq!(steps.iter().filter(|s| **s == BootStep::DropPrivileges).count(), 1);
}

#[test]
fn each_failure_is_final() {
    let steps = [
        BootStep::LoadConfig,
        BootStep::SetupDirectory,
        BootStep::ChangeDirectory,
        BootStep::BindSocket,
        BootStep::DropPrivileges,
        BootStep::Serve,
    ];
    for (n, step) in steps.iter().enumerate() {
        let mut reports = vec![true; n];
        reports.push(false);
        reports.extend([true, true, true, true, true, true, true]);
        let (done, state) = drive(&reports);
        assert_eq!(state, Lifecycle::Failed(*step));
        assert_eq!(state.failure(), Some(*step));
        assert_eq!(state.next_step(), None);
        assert!(!state.is_serving());
        assert_eq!(done.len(), n + 1);
        assert!(!done.contains(&BootStep::Serve) || *step == BootStep::Serve);
    }
}

#[test]
fn failed_privilege_drop_never_serves() {
    let (steps, state) = drive(&[true, true, true, true, false, true, true]);
    assert_eq!(state, Lifecycle::Failed(BootStep::DropPrivileges));
    assert!(!steps.contains(&BootStep::Serve));
}

#[test]
fn serving_stays_serving() {
    let (_, state) = drive(&[true, true, true, true, true, true, false, true]);
    assert_eq!(state, Lifecycle::Serving);
}
