use acme_redirect::args::{Args, DaemonArgs};
use acme_redirect::config::{load, Sources};
use acme_redirect::setup::{
    setup, DirMeta, Phase, Setup, SetupAction, SetupError, SetupEvent, DATA_DIR_MODE,
};

struct World {
    dir: Option<DirMeta>,
    fresh: DirMeta,
    users: Vec<(&'static str, u32)>,
    groups: Vec<(&'static str, u32)>,
}

fn lookup(names: &[(&'static str, u32)], name: &str) -> Option<u32> {
    names.iter().find(|(n, _)| *n == name).map(|(_, id)| *id)
}

impl World {
    fn perform(&mut self, action: &SetupAction) -> SetupEvent {
        match action {
            SetupAction::Probe => SetupEvent::Exists(self.dir.is_some()),
            SetupAction::Mkdir(_) => {
                self.dir = Some(self.fresh);
                SetupEvent::Done
            }
            SetupAction::Stat => match self.dir {
                Some(meta) => SetupEvent::Meta(meta),
                None => SetupEvent::Failed,
            },
            SetupAction::Chmod(mode) => {
                self.dir.as_mut().unwrap().mode = *mode;
                SetupEvent::Done
            }
            SetupAction::ResolveUser(name) => SetupEvent::Id(lookup(&self.users, name)),
            SetupAction::Chown(uid) => {
                self.dir.as_mut().unwrap().uid = *uid;
                SetupEvent::Done
            }
            SetupAction::ResolveGroup(name) => SetupEvent::Id(lookup(&self.groups, name)),
            SetupAction::Chgrp(gid) => {
                self.dir.as_mut().unwrap().gid = *gid;
                SetupEvent::Done
            }
            SetupAction::Finish | SetupAction::Abort(_) => unreachable!(),
        }
    }
}

fn run(world: &mut World, user: Option<&str>, group: Option<&str>) -> (Vec<SetupAction>, SetupAction) {
    let (mut state, mut action) =
        Setup::start(user.map(|s| s.to_string()), group.map(|s| s.to_string()));
    let mut done = Vec::new();
    loop {
        if matches!(action, SetupAction::Finish | SetupAction::Abort(_)) {
            return (done, action);
        }
        let event = world.perform(&action);
        done.push(action);
        let (next_state, next_action) = state.step(event);
        state = next_state;
        action = next_action;
        assert!(done.len() <= 8);
    }
}

fn world(dir: Option<DirMeta>) -> World {
    World {
        dir,
        fresh: DirMeta { mode: 0o700, uid: 0, gid: 0 },
        users: vec![("acme", 999)],
        groups: vec![("ssl", 42)],
    }
}

#[test]
fn fresh_directory_is_made_and_brought_in_line() {
    let mut w = world(None);
    let (done, last) = run(&mut w, Some("acme"), Some("ssl"));
    assert_eq!(
        done,
        vec![
            SetupAction::Probe,
            SetupAction::Mkdir(0o750),
            SetupAction::Stat,
            SetupAction::Chmod(0o750),
            SetupAction::ResolveUser("acme".to_string()),
            SetupAction::Chown(999),
            SetupAction::ResolveGroup("ssl".to_string()),
            SetupAction::Chgrp(42),
        ]
    );
    assert_eq!(last, SetupAction::Finish);
    assert_eq!(w.dir, Some(DirMeta { mode: 0o750, uid: 999, gid: 42 }));
}

#[test]
fn second_setup_changes_nothing() {
    let mut w = world(None);
    run(&mut w, Some("acme"), Some("ssl"));
    let settled = w.dir;
    let (done, last) = run(&mut w, Some("acme"), Some("ssl"));
    assert_eq!(
        done,
        vec![
            SetupAction::Probe,
            SetupAction::Stat,
            SetupAction::ResolveUser("acme".to_string()),
            SetupAction::ResolveGroup("ssl".to_string()),
        ]
    );
    assert_eq!(last, SetupAction::Finish);
    assert_eq!(w.dir, settled);
}

#[test]
fn existing_directory_is_not_made_again() {
    let mut w = world(Some(DirMeta { mode: 0o755, uid: 7, gid: 8 }));
    let (done, last) = run(&mut w, None, None);
    assert_eq!(done, vec![SetupAction::Probe, SetupAction::Stat, SetupAction::Chmod(0o750)]);
    assert_eq!(last, SetupAction::Finish);
    assert_eq!(w.dir, Some(DirMeta { mode: 0o750, uid: 7, gid: 8 }));
}

#[test]
fn directory_in_line_needs_two_looks_only() {
    let mut w = world(Some(DirMeta { mode: DATA_DIR_MODE, uid: 7, gid: 8 }));
    let (done, last) = run(&mut w, None, None);
    assert_eq!(done, vec![SetupAction::Probe, SetupAction::Stat]);
    assert_eq!(last, SetupAction::Finish);
}

#[test]
fn unknown_user_ends_the_setup() {
    let mut w = world(Some(DirMeta { mode: 0o750, uid: 7, gid: 8 }));
    let (done, last) = run(&mut w, Some("nobody-here"), Some("ssl"));
    assert_eq!(done.len(), 3);
    assert_eq!(last, SetupAction::Abort(SetupError::UnknownUser("nobody-here".to_string())));
    assert_eq!(w.dir, Some(DirMeta { mode: 0o750, uid: 7, gid: 8 }));
}

#[test]
fn unknown_group_ends_the_setup_after_the_owner_was_set() {
    let mut w = world(Some(DirMeta { mode: 0o750, uid: 7, gid: 8 }));
    let (_, last) = run(&mut w, Some("acme"), Some("no-such-group"));
    assert_eq!(last, SetupAction::Abort(SetupError::UnknownGroup("no-such-group".to_string())));
    assert_eq!(w.dir, Some(DirMeta { mode: 0o750, uid: 999, gid: 8 }));
}

#[test]
fn each_failed_action_has_its_error() {
    let (s, a) = Setup::start(Some("u".to_string()), Some("g".to_string()));
    assert_eq!(a, SetupAction::Probe);
    assert_eq!(s.phase(), Phase::Probing);
    let (s, a) = s.step(SetupEvent::Exists(false));
    assert_eq!(a, SetupAction::Mkdir(0o750));
    let (s, a) = s.step(SetupEvent::Failed);
    assert_eq!(a, SetupAction::Abort(SetupError::Create));
    assert_eq!(s.phase(), Phase::Aborted);

    let (s, _) = Setup::start(None, None);
    let (s, a) = s.step(SetupEvent::Exists(true));
    assert_eq!(a, SetupAction::Stat);
    let (_, a) = s.step(SetupEvent::Failed);
    assert_eq!(a, SetupAction::Abort(SetupError::Stat));

    let (s, _) = Setup::start(Some("u".to_string()), Some("g".to_string()));
    let (s, _) = s.step(SetupEvent::Exists(true));
    let (s, a) = s.step(SetupEvent::Meta(DirMeta { mode: 0o777, uid: 1, gid: 1 }));
    assert_eq!(a, SetupAction::Chmod(0o750));
    let (_, a) = s.step(SetupEvent::Failed);
    assert_eq!(a, SetupAction::Abort(SetupError::Chmod));

    let (s, _) = Setup::start(Some("u".to_string()), Some("g".to_string()));
    let (s, _) = s.step(SetupEvent::Exists(true));
    let (s, a) = s.step(SetupEvent::Meta(DirMeta { mode: 0o750, uid: 1, gid: 1 }));
    assert_eq!(a, SetupAction::ResolveUser("u".to_string()));
    let (s, a) = s.step(SetupEvent::Id(Some(2)));
    assert_eq!(a, SetupAction::Chown(2));
    let (_, a) = s.step(SetupEvent::Failed);
    assert_eq!(a, SetupAction::Abort(SetupError::Chown));

    let (s, _) = Setup::start(None, Some("g".to_string()));
    let (s, _) = s.step(SetupEvent::Exists(true));
    let (s, a) = s.step(SetupEvent::Meta(DirMeta { mode: 0o750, uid: 1, gid: 1 }));
    assert_eq!(a, SetupAction::ResolveGroup("g".to_string()));
    let (s, a) = s.step(SetupEvent::Id(Some(2)));
    assert_eq!(a, SetupAction::Chgrp(2));
    let (s, a) = s.step(SetupEvent::Failed);
    assert_eq!(a, SetupAction::Abort(SetupError::Chgrp));
    let (_, a) = s.step(SetupEvent::Done);
    assert_eq!(a, SetupAction::Abort(SetupError::Unexpected));
}

#[test]
fn report_that_answers_another_action_ends_the_setup() {
    let (s, _) = Setup::start(None, None);
    let (s, a) = s.step(SetupEvent::Done);
    assert_eq!(a, SetupAction::Abort(SetupError::Unexpected));
    assert_eq!(s.phase(), Phase::Aborted);
    let (s, _) = Setup::start(None, None);
    let (s, _) = s.step(SetupEvent::Exists(true));
    let (_, a) = s.step(SetupEvent::Id(Some(1)));
    assert_eq!(a, SetupAction::Abort(SetupError::Unexpected));
}

#[test]
fn metadata_keeps_the_permission_bits_of_a_file_mode() {
    assert_eq!(DirMeta::from_stat(0o040750, 1, 2), DirMeta { mode: 0o750, uid: 1, gid: 2 });
    assert_eq!(DirMeta::from_stat(0o042755, 0, 0), DirMeta { mode: 0o2755, uid: 0, gid: 0 });
    assert_eq!(DATA_DIR_MODE, 0o750);
}

#[test]
fn setup_takes_the_user_of_the_invocation_and_the_group_of_the_configuration() {
    let args = Args {
        config: "c".to_string(),
        config_dir: "d".to_string(),
        data_dir: "/var/lib/acme-redirect".to_string(),
        chall_dir: "/run/acme-redirect".to_string(),
        acme_email: None,
        acme_url: "u".to_string(),
    };
    let sources = Sources { main: Some("[system]\ngroup = \"ssl\"\n".to_string()), folder: Some(vec![]) };
    let config = load(&args, &sources).unwrap();
    let daemon = DaemonArgs { bind_addr: "[::]:80".to_string(), user: Some("acme".to_string()) };
    let (state, action) = setup(&config, &daemon);
    assert_eq!(action, SetupAction::Probe);
    let (state, _) = state.step(SetupEvent::Exists(true));
    let (state, action) = state.step(SetupEvent::Meta(DirMeta { mode: 0o750, uid: 1, gid: 1 }));
    assert_eq!(action, SetupAction::ResolveUser("acme".to_string()));
    let (_, action) = state.step(SetupEvent::Id(Some(1)));
    assert_eq!(action, SetupAction::ResolveGroup("ssl".to_string()));
}
