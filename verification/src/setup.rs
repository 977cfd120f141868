//! Setting up the data directory while the process is still privileged.
//!
//! The library decides and the caller acts: [`Setup::start`] and
//! [`Setup::step`] name one action at a time, and the caller reports what
//! came of it.

use crate::args::{clone_optional, optional_view, DaemonArgs};
use crate::config::Config;
use vstd::prelude::*;

verus! {

/// The permission bits that the data directory is to have.
pub const DATA_DIR_MODE: u32 = 0o750;

/// The bits of a file mode that are permission bits.
pub const PERMISSION_BITS: u32 = 0o7777;

/// What is known of the data directory.
#[derive(Clone, Copy, Debug, PartialEq, Eq, Structural)]
pub struct DirMeta {
    /// Its permission bits.
    pub mode: u32,
    /// The user that owns it.
    pub uid: u32,
    /// The group that owns it.
    pub gid: u32,
}

impl DirMeta {
    /// The metadata of a directory whose file mode, type bits included, is
    /// `st_mode`.
    pub fn from_stat(st_mode: u32, uid: u32, gid: u32) -> (r: DirMeta)
        ensures
            r == (DirMeta { mode: st_mode & PERMISSION_BITS, uid, gid }),
    {
        DirMeta { mode: st_mode & PERMISSION_BITS, uid, gid }
    }
}

/// Why the setup was given up.
#[derive(Debug, PartialEq)]
pub enum SetupError {
    /// The directory could not be created.
    Create,
    /// The directory could not be examined.
    Stat,
    /// The permission bits could not be set.
    Chmod,
    /// No user of this name is known.
    UnknownUser(String),
    /// The owner could not be set.
    Chown,
    /// No group of this name is known.
    UnknownGroup(String),
    /// The owning group could not be set.
    Chgrp,
    /// The report does not answer the action that was asked for.
    Unexpected,
}

/// The model of [`SetupError`].
pub enum SetupFault {
    Create,
    Stat,
    Chmod,
    UnknownUser(Seq<char>),
    Chown,
    UnknownGroup(Seq<char>),
    Chgrp,
    Unexpected,
}

impl View for SetupError {
    type V = SetupFault;

    open spec fn view(&self) -> SetupFault {
        match self {
            SetupError::Create => SetupFault::Create,
            SetupError::Stat => SetupFault::Stat,
            SetupError::Chmod => SetupFault::Chmod,
            SetupError::UnknownUser(name) => SetupFault::UnknownUser(name@),
            SetupError::Chown => SetupFault::Chown,
            SetupError::UnknownGroup(name) => SetupFault::UnknownGroup(name@),
            SetupError::Chgrp => SetupFault::Chgrp,
            SetupError::Unexpected => SetupFault::Unexpected,
        }
    }
}

/// What the caller is to do next.
#[derive(Debug, PartialEq)]
pub enum SetupAction {
    /// Find out whether the directory exists.
    Probe,
    /// Create the directory with these permission bits.
    Mkdir(u32),
    /// Read the metadata of the directory.
    Stat,
    /// Set the permission bits of the directory.
    Chmod(u32),
    /// Look up the user of this name.
    ResolveUser(String),
    /// Make this user the owner of the directory.
    Chown(u32),
    /// Look up the group of this name.
    ResolveGroup(String),
    /// Make this group the owning group of the directory.
    Chgrp(u32),
    /// Nothing: the directory is set up.
    Finish,
    /// Nothing: the setup has failed.
    Abort(SetupError),
}

/// The model of [`SetupAction`].
pub enum Step {
    Probe,
    Mkdir(u32),
    Stat,
    Chmod(u32),
    ResolveUser(Seq<char>),
    Chown(u32),
    ResolveGroup(Seq<char>),
    Chgrp(u32),
    Finish,
    Abort(SetupFault),
}

impl View for SetupAction {
    type V = Step;

    open spec fn view(&self) -> Step {
        match self {
            SetupAction::Probe => Step::Probe,
            SetupAction::Mkdir(mode) => Step::Mkdir(*mode),
            SetupAction::Stat => Step::Stat,
            SetupAction::Chmod(mode) => Step::Chmod(*mode),
            SetupAction::ResolveUser(name) => Step::ResolveUser(name@),
            SetupAction::Chown(uid) => Step::Chown(*uid),
            SetupAction::ResolveGroup(name) => Step::ResolveGroup(name@),
            SetupAction::Chgrp(gid) => Step::Chgrp(*gid),
            SetupAction::Finish => Step::Finish,
            SetupAction::Abort(error) => Step::Abort(error@),
        }
    }
}

impl Step {
    /// Whether the step changes the file system.
    pub open spec fn is_change(self) -> bool {
        self is Mkdir || self is Chmod || self is Chown || self is Chgrp
    }

    /// Whether the step ends the setup.
    pub open spec fn is_last(self) -> bool {
        self is Finish || self is Abort
    }
}

/// What came of the action that was asked for.
#[derive(Clone, Copy, Debug, PartialEq, Eq, Structural)]
pub enum SetupEvent {
    /// Answer to `Probe`: whether the directory exists.
    Exists(bool),
    /// Answer to `Stat`: the metadata of the directory.
    Meta(DirMeta),
    /// Answer to `ResolveUser` and `ResolveGroup`: the numeric id, if the
    /// name is known.
    Id(Option<u32>),
    /// The change was made.
    Done,
    /// The action failed.
    Failed,
}

/// How far the setup has come: the action whose report is awaited.
#[derive(Clone, Copy, Debug, PartialEq, Eq, Structural)]
pub enum Phase {
    Probing,
    Creating,
    Reading,
    SettingMode,
    ResolvingUser,
    SettingOwner,
    ResolvingGroup,
    SettingGroup,
    Finished,
    Aborted,
}

/// The setup of the data directory, between two actions.
#[derive(Debug, PartialEq)]
pub struct Setup {
    phase: Phase,
    /// The metadata as `Stat` reported it.
    meta: Option<DirMeta>,
    /// The user that is to own the directory.
    user: Option<String>,
    /// The group that is to own the directory.
    group: Option<String>,
}

/// The model of [`Setup`].
pub struct SetupModel {
    pub phase: Phase,
    pub meta: Option<DirMeta>,
    pub user: Option<Seq<char>>,
    pub group: Option<Seq<char>>,
}

impl View for Setup {
    type V = SetupModel;

    closed spec fn view(&self) -> SetupModel {
        SetupModel {
            phase: self.phase,
            meta: self.meta,
            user: optional_view(self.user),
            group: optional_view(self.group),
        }
    }
}

impl SetupModel {
    /// The setup before its first action.
    pub open spec fn initial(user: Option<Seq<char>>, group: Option<Seq<char>>) -> SetupModel {
        SetupModel { phase: Phase::Probing, meta: None, user, group }
    }

    /// The setup in another phase.
    pub open spec fn at(self, phase: Phase) -> SetupModel {
        SetupModel { phase, ..self }
    }

    /// The setup given up for `fault`.
    pub open spec fn abort(self, fault: SetupFault) -> (SetupModel, Step) {
        (self.at(Phase::Aborted), Step::Abort(fault))
    }

    /// What follows once the directory exists: its metadata is read.
    pub open spec fn read(self) -> (SetupModel, Step) {
        (self.at(Phase::Reading), Step::Stat)
    }

    /// What follows once the metadata is known: the permission bits are set
    /// if they are not the wanted ones.
    pub open spec fn enforce_mode(self, meta: DirMeta) -> (SetupModel, Step) {
        let known = SetupModel { meta: Some(meta), ..self };
        if meta.mode != DATA_DIR_MODE {
            (known.at(Phase::SettingMode), Step::Chmod(DATA_DIR_MODE))
        } else {
            known.enforce_user()
        }
    }

    /// What follows once the permission bits are right: the user is looked
    /// up, if one is wanted.
    pub open spec fn enforce_user(self) -> (SetupModel, Step) {
        match self.user {
            Some(name) => (self.at(Phase::ResolvingUser), Step::ResolveUser(name)),
            None => self.enforce_group(),
        }
    }

    /// What follows once the user is known: it is made the owner if it is
    /// not the owner that `Stat` reported.
    pub open spec fn enforce_owner(self, uid: u32) -> (SetupModel, Step) {
        if self.meta matches Some(meta) && meta.uid == uid {
            self.enforce_group()
        } else {
            (self.at(Phase::SettingOwner), Step::Chown(uid))
        }
    }

    /// What follows once the owner is right: the group is looked up, if one
    /// is wanted.
    pub open spec fn enforce_group(self) -> (SetupModel, Step) {
        match self.group {
            Some(name) => (self.at(Phase::ResolvingGroup), Step::ResolveGroup(name)),
            None => self.finish(),
        }
    }

    /// What follows once the group is known: it is made the owning group if
    /// it is not the one that `Stat` reported.
    pub open spec fn enforce_group_owner(self, gid: u32) -> (SetupModel, Step) {
        if self.meta matches Some(meta) && meta.gid == gid {
            self.finish()
        } else {
            (self.at(Phase::SettingGroup), Step::Chgrp(gid))
        }
    }

    /// The setup at its end.
    pub open spec fn finish(self) -> (SetupModel, Step) {
        (self.at(Phase::Finished), Step::Finish)
    }

    /// The fault that a failed action of this phase stands for.
    pub open spec fn fault_of_phase(self) -> SetupFault {
        match self.phase {
            Phase::Creating => SetupFault::Create,
            Phase::Reading => SetupFault::Stat,
            Phase::SettingMode => SetupFault::Chmod,
            Phase::SettingOwner => SetupFault::Chown,
            Phase::SettingGroup => SetupFault::Chgrp,
            _ => SetupFault::Unexpected,
        }
    }

    /// The setup after `event`, and the action that it asks for next. A
    /// failed action, an unknown name and a report that answers another
    /// action than the one asked for each end the setup.
    pub open spec fn after(self, event: SetupEvent) -> (SetupModel, Step) {
        match (self.phase, event) {
            (Phase::Probing, SetupEvent::Exists(false)) => (
                self.at(Phase::Creating),
                Step::Mkdir(DATA_DIR_MODE),
            ),
            (Phase::Probing, SetupEvent::Exists(true)) => self.read(),
            (Phase::Creating, SetupEvent::Done) => self.read(),
            (Phase::Reading, SetupEvent::Meta(meta)) => self.enforce_mode(meta),
            (Phase::SettingMode, SetupEvent::Done) => self.enforce_user(),
            (Phase::ResolvingUser, SetupEvent::Id(Some(uid))) => self.enforce_owner(uid),
            (Phase::ResolvingUser, SetupEvent::Id(None)) => match self.user {
                Some(name) => self.abort(SetupFault::UnknownUser(name)),
                None => self.abort(SetupFault::Unexpected),
            },
            (Phase::SettingOwner, SetupEvent::Done) => self.enforce_group(),
            (Phase::ResolvingGroup, SetupEvent::Id(Some(gid))) => self.enforce_group_owner(gid),
            (Phase::ResolvingGroup, SetupEvent::Id(None)) => match self.group {
                Some(name) => self.abort(SetupFault::UnknownGroup(name)),
                None => self.abort(SetupFault::Unexpected),
            },
            (Phase::SettingGroup, SetupEvent::Done) => self.finish(),
            (_, SetupEvent::Failed) => self.abort(self.fault_of_phase()),
            _ => self.abort(SetupFault::Unexpected),
        }
    }
}

/// Begins the setup of the data directory of `config`: it is to belong to
/// the user that `args` names and to the group that `config` names.
pub fn setup(config: &Config, args: &DaemonArgs) -> (r: (Setup, SetupAction))
    ensures
        r.0@ == SetupModel::initial(optional_view(args.user), optional_view(config.group)),
        r.1@ == Step::Probe,
{
    Setup::start(clone_optional(&args.user), clone_optional(&config.group))
}

impl Setup {
    /// Begins a setup for a directory that is to belong to `user` and to
    /// `group`, where they are given.
    pub fn start(user: Option<String>, group: Option<String>) -> (r: (Setup, SetupAction))
        ensures
            r.0@ == SetupModel::initial(optional_view(user), optional_view(group)),
            r.1@ == Step::Probe,
    {
        (Setup { phase: Phase::Probing, meta: None, user, group }, SetupAction::Probe)
    }

    /// The phase that the setup is in.
    pub fn phase(&self) -> (r: Phase)
        ensures
            r == self@.phase,
    {
        self.phase
    }

    fn abort(self, error: SetupError) -> (r: (Setup, SetupAction))
        ensures
            (r.0@, r.1@) == self@.abort(error@),
    {
        (Setup { phase: Phase::Aborted, ..self }, SetupAction::Abort(error))
    }

    fn finish(self) -> (r: (Setup, SetupAction))
        ensures
            (r.0@, r.1@) == self@.finish(),
    {
        (Setup { phase: Phase::Finished, ..self }, SetupAction::Finish)
    }

    fn read(self) -> (r: (Setup, SetupAction))
        ensures
            (r.0@, r.1@) == self@.read(),
    {
        (Setup { phase: Phase::Reading, ..self }, SetupAction::Stat)
    }

    fn enforce_group_owner(self, gid: u32) -> (r: (Setup, SetupAction))
        ensures
            (r.0@, r.1@) == self@.enforce_group_owner(gid),
    {
        let same = match self.meta {
            Some(meta) => meta.gid == gid,
            None => false,
        };
        if same {
            self.finish()
        } else {
            (Setup { phase: Phase::SettingGroup, ..self }, SetupAction::Chgrp(gid))
        }
    }

    fn enforce_group(self) -> (r: (Setup, SetupAction))
        ensures
            (r.0@, r.1@) == self@.enforce_group(),
    {
        match clone_optional(&self.group) {
            Some(name) => (
                Setup { phase: Phase::ResolvingGroup, ..self },
                SetupAction::ResolveGroup(name),
            ),
            None => self.finish(),
        }
    }

    fn enforce_owner(self, uid: u32) -> (r: (Setup, SetupAction))
        ensures
            (r.0@, r.1@) == self@.enforce_owner(uid),
    {
        let same = match self.meta {
            Some(meta) => meta.uid == uid,
            None => false,
        };
        if same {
            self.enforce_group()
        } else {
            (Setup { phase: Phase::SettingOwner, ..self }, SetupAction::Chown(uid))
        }
    }

    fn enforce_user(self) -> (r: (Setup, SetupAction))
        ensures
            (r.0@, r.1@) == self@.enforce_user(),
    {
        match clone_optional(&self.user) {
            Some(name) => (
                Setup { phase: Phase::ResolvingUser, ..self },
                SetupAction::ResolveUser(name),
            ),
            None => self.enforce_group(),
        }
    }

    fn enforce_mode(self, meta: DirMeta) -> (r: (Setup, SetupAction))
        ensures
            (r.0@, r.1@) == self@.enforce_mode(meta),
    {
        let known = Setup { meta: Some(meta), ..self };
        if meta.mode != DATA_DIR_MODE {
            (Setup { phase: Phase::SettingMode, ..known }, SetupAction::Chmod(DATA_DIR_MODE))
        } else {
            known.enforce_user()
        }
    }

    fn fault_of_phase(&self) -> (r: SetupError)
        ensures
            r@ == self@.fault_of_phase(),
    {
        match self.phase {
            Phase::Creating => SetupError::Create,
            Phase::Reading => SetupError::Stat,
            Phase::SettingMode => SetupError::Chmod,
            Phase::SettingOwner => SetupError::Chown,
            Phase::SettingGroup => SetupError::Chgrp,
            _ => SetupError::Unexpected,
        }
    }

    /// Takes the report on the last action and names the next one.
    pub fn step(self, event: SetupEvent) -> (r: (Setup, SetupAction))
        ensures
            (r.0@, r.1@) == self@.after(event),
    {
        match (self.phase, event) {
            (Phase::Probing, SetupEvent::Exists(false)) => (
                Setup { phase: Phase::Creating, ..self },
                SetupAction::Mkdir(DATA_DIR_MODE),
            ),
            (Phase::Probing, SetupEvent::Exists(true)) => self.read(),
            (Phase::Creating, SetupEvent::Done) => self.read(),
            (Phase::Reading, SetupEvent::Meta(meta)) => self.enforce_mode(meta),
            (Phase::SettingMode, SetupEvent::Done) => self.enforce_user(),
            (Phase::ResolvingUser, SetupEvent::Id(Some(uid))) => self.enforce_owner(uid),
            (Phase::ResolvingUser, SetupEvent::Id(None)) => match clone_optional(&self.user) {
                Some(name) => self.abort(SetupError::UnknownUser(name)),
                None => self.abort(SetupError::Unexpected),
            },
            (Phase::SettingOwner, SetupEvent::Done) => self.enforce_group(),
            (Phase::ResolvingGroup, SetupEvent::Id(Some(gid))) => self.enforce_group_owner(gid),
            (Phase::ResolvingGroup, SetupEvent::Id(None)) => match clone_optional(&self.group) {
                Some(name) => self.abort(SetupError::UnknownGroup(name)),
                None => self.abort(SetupError::Unexpected),
            },
            (Phase::SettingGroup, SetupEvent::Done) => self.finish(),
            (_, SetupEvent::Failed) => {
                let error = self.fault_of_phase();
                self.abort(error)
            },
            _ => self.abort(SetupError::Unexpected),
        }
    }
}

/// The part of the system that the setup reads and changes.
pub struct World {
    /// The data directory, if it exists.
    pub dir: Option<DirMeta>,
    /// What a directory is like right after it was created.
    pub fresh: DirMeta,
    /// The users that are known, by name.
    pub users: Map<Seq<char>, u32>,
    /// The groups that are known, by name.
    pub groups: Map<Seq<char>, u32>,
}

/// The id that `names` has for `name`, if it has one.
pub open spec fn resolve(names: Map<Seq<char>, u32>, name: Seq<char>) -> Option<u32> {
    if names.contains_key(name) {
        Some(names[name])
    } else {
        None
    }
}

impl World {
    /// What comes of `step` where no action fails for a reason outside this
    /// model: the world afterwards, and the report.
    pub open spec fn perform(self, step: Step) -> (World, SetupEvent) {
        match step {
            Step::Probe => (self, SetupEvent::Exists(self.dir is Some)),
            Step::Mkdir(_) => match self.dir {
                None => (World { dir: Some(self.fresh), ..self }, SetupEvent::Done),
                Some(_) => (self, SetupEvent::Failed),
            },
            Step::Stat => match self.dir {
                Some(meta) => (self, SetupEvent::Meta(meta)),
                None => (self, SetupEvent::Failed),
            },
            Step::Chmod(mode) => match self.dir {
                Some(meta) => (
                    World { dir: Some(DirMeta { mode, ..meta }), ..self },
                    SetupEvent::Done,
                ),
                None => (self, SetupEvent::Failed),
            },
            Step::ResolveUser(name) => (self, SetupEvent::Id(resolve(self.users, name))),
            Step::Chown(uid) => match self.dir {
                Some(meta) => (
                    World { dir: Some(DirMeta { uid, ..meta }), ..self },
                    SetupEvent::Done,
                ),
                None => (self, SetupEvent::Failed),
            },
            Step::ResolveGroup(name) => (self, SetupEvent::Id(resolve(self.groups, name))),
            Step::Chgrp(gid) => match self.dir {
                Some(meta) => (
                    World { dir: Some(DirMeta { gid, ..meta }), ..self },
                    SetupEvent::Done,
                ),
                None => (self, SetupEvent::Failed),
            },
            Step::Finish => (self, SetupEvent::Failed),
            Step::Abort(_) => (self, SetupEvent::Failed),
        }
    }
}

/// One run of the setup: the steps that were performed, in order, the step
/// that ended it, and the world that it left.
pub struct Run {
    pub steps: Seq<Step>,
    pub last: Step,
    pub world: World,
}

/// The run that performs `step` in `world` and goes on from `setup` until
/// a step ends it, for `limit` steps at most.
pub open spec fn run_from(setup: SetupModel, step: Step, world: World, limit: nat) -> Run
    decreases limit,
{
    if step.is_last() || limit == 0 {
        Run { steps: Seq::empty(), last: step, world }
    } else {
        let (changed, event) = world.perform(step);
        let (next_setup, next_step) = setup.after(event);
        let rest = run_from(next_setup, next_step, changed, (limit - 1) as nat);
        Run { steps: seq![step] + rest.steps, last: rest.last, world: rest.world }
    }
}

/// The most steps that a setup performs.
pub open spec fn max_steps() -> nat {
    8
}

/// The whole setup in `world`, for a directory that is to belong to `user`
/// and to `group`.
pub open spec fn run(user: Option<Seq<char>>, group: Option<Seq<char>>, world: World) -> Run {
    run_from(SetupModel::initial(user, group), Step::Probe, world, max_steps())
}

/// Whether no step of `steps` changes the file system.
pub open spec fn changes_nothing(steps: Seq<Step>) -> bool {
    forall|i: int| 0 <= i < steps.len() ==> !(#[trigger] steps[i]).is_change()
}

/// The id that a directory is to have: that of `name` where a name is
/// given, else the one that it has.
pub open spec fn wanted_id(names: Map<Seq<char>, u32>, name: Option<Seq<char>>, current: u32) -> u32 {
    match name {
        Some(n) => names[n],
        None => current,
    }
}

/// Whether `name`, where it is given, is known.
pub open spec fn known(names: Map<Seq<char>, u32>, name: Option<Seq<char>>) -> bool {
    name matches Some(n) ==> names.contains_key(n)
}

/// The end of a run, from the look at the group on.
proof fn lemma_group_phase(setup: SetupModel, world: World, limit: nat)
    requires
        limit >= 2,
        setup.meta matches Some(meta) && world.dir matches Some(dir) && meta.gid == dir.gid,
    ensures
        ({
            let (next, step) = setup.enforce_group();
            let run = run_from(next, step, world, limit);
            let dir = world.dir->Some_0;
            let gid = wanted_id(world.groups, setup.group, dir.gid);
            &&& run.last.is_last()
            &&& run.world == World { dir: run.world.dir, ..world }
            &&& run.last is Finish ==> known(world.groups, setup.group) && run.world.dir == Some(
                DirMeta { gid, ..dir },
            ) && (gid == dir.gid ==> changes_nothing(run.steps))
        }),
{
    reveal_with_fuel(run_from, 3);
}

/// The end of a run, from the look at the user on.
proof fn lemma_user_phase(setup: SetupModel, world: World, limit: nat)
    requires
        limit >= 4,
        setup.meta matches Some(meta) && world.dir matches Some(dir) && meta.uid == dir.uid
            && meta.gid == dir.gid,
    ensures
        ({
            let (next, step) = setup.enforce_user();
            let run = run_from(next, step, world, limit);
            let dir = world.dir->Some_0;
            let uid = wanted_id(world.users, setup.user, dir.uid);
            let gid = wanted_id(world.groups, setup.group, dir.gid);
            &&& run.last.is_last()
            &&& run.world == World { dir: run.world.dir, ..world }
            &&& run.last is Finish ==> known(world.users, setup.user) && known(
                world.groups,
                setup.group,
            ) && run.world.dir == Some(DirMeta { uid, gid, ..dir }) && (uid == dir.uid && gid
                == dir.gid ==> changes_nothing(run.steps))
        }),
{
    let dir = world.dir->Some_0;
    match setup.user {
        None => {
            lemma_group_phase(setup, world, limit);
        },
        Some(name) => {
            let asked = setup.at(Phase::ResolvingUser);
            reveal_with_fuel(run_from, 3);
            match resolve(world.users, name) {
                None => {},
                Some(uid) => {
                    if dir.uid == uid {
                        lemma_group_phase(asked, world, (limit - 1) as nat);
                    } else {
                        let owned = World { dir: Some(DirMeta { uid, ..dir }), ..world };
                        lemma_group_phase(
                            asked.at(Phase::SettingOwner),
                            owned,
                            (limit - 2) as nat,
                        );
                    }
                },
            }
        },
    }
}

/// The end of a run, from the report of the metadata on.
proof fn lemma_mode_phase(setup: SetupModel, world: World, limit: nat)
    requires
        limit >= 5,
        world.dir is Some,
    ensures
        ({
            let dir = world.dir->Some_0;
            let (next, step) = setup.enforce_mode(dir);
            let run = run_from(next, step, world, limit);
            let uid = wanted_id(world.users, setup.user, dir.uid);
            let gid = wanted_id(world.groups, setup.group, dir.gid);
            &&& run.last.is_last()
            &&& run.world == World { dir: run.world.dir, ..world }
            &&& run.last is Finish ==> known(world.users, setup.user) && known(
                world.groups,
                setup.group,
            ) && run.world.dir == Some(DirMeta { mode: DATA_DIR_MODE, uid, gid }) && (Some(dir)
                == run.world.dir ==> changes_nothing(run.steps))
        }),
{
    let dir = world.dir->Some_0;
    let seen = SetupModel { meta: Some(dir), ..setup };
    if dir.mode == DATA_DIR_MODE {
        lemma_user_phase(seen, world, limit);
    } else {
        reveal_with_fuel(run_from, 2);
        let set = World { dir: Some(DirMeta { mode: DATA_DIR_MODE, ..dir }), ..world };
        lemma_user_phase(seen.at(Phase::SettingMode), set, (limit - 1) as nat);
    }
}

/// The whole run, in the terms of the three lemmas above.
proof fn lemma_run(user: Option<Seq<char>>, group: Option<Seq<char>>, world: World)
    ensures
        ({
            let run = run(user, group, world);
            let dir = match world.dir {
                Some(meta) => meta,
                None => world.fresh,
            };
            let uid = wanted_id(world.users, user, dir.uid);
            let gid = wanted_id(world.groups, group, dir.gid);
            &&& run.last.is_last()
            &&& run.world == World { dir: run.world.dir, ..world }
            &&& run.last is Finish ==> known(world.users, user) && known(world.groups, group)
                && run.world.dir == Some(DirMeta { mode: DATA_DIR_MODE, uid, gid }) && (world.dir
                == run.world.dir ==> changes_nothing(run.steps))
        }),
{
    let start = SetupModel::initial(user, group);
    reveal_with_fuel(run_from, 4);
    match world.dir {
        Some(dir) => {
            lemma_mode_phase(start.at(Phase::Reading), world, 6);
        },
        None => {
            let made = World { dir: Some(world.fresh), ..world };
            lemma_mode_phase(start.at(Phase::Creating).at(Phase::Reading), made, 5);
        },
    }
}

/// Every setup comes to an end.
pub proof fn law_setup_ends(user: Option<Seq<char>>, group: Option<Seq<char>>, world: World)
    ensures
        run(user, group, world).last.is_last(),
{
    lemma_run(user, group, world);
}

/// A setup that finishes leaves the directory with the wanted permission
/// bits, owned by the wanted user and the wanted group where they are
/// given, and otherwise as it was, or as it was made; it knows each name
/// that was given, and changes nothing else.
pub proof fn law_setup_converges(user: Option<Seq<char>>, group: Option<Seq<char>>, world: World)
    requires
        run(user, group, world).last is Finish,
    ensures
        ({
            let before = match world.dir {
                Some(meta) => meta,
                None => world.fresh,
            };
            let after = run(user, group, world).world;
            &&& after.dir == Some(
                DirMeta {
                    mode: DATA_DIR_MODE,
                    uid: wanted_id(world.users, user, before.uid),
                    gid: wanted_id(world.groups, group, before.gid),
                },
            )
            &&& known(world.users, user)
            &&& known(world.groups, group)
            &&& after == World { dir: after.dir, ..world }
        }),
{
    lemma_run(user, group, world);
}

/// A second setup, after one that finished and with nothing changed in
/// between, finishes too, changes nothing and leaves the directory as the
/// first left it.
pub proof fn law_setup_idempotent(user: Option<Seq<char>>, group: Option<Seq<char>>, world: World)
    requires
        run(user, group, world).last is Finish,
    ensures
        ({
            let first = run(user, group, world);
            let second = run(user, group, first.world);
            &&& second.last is Finish
            &&& second.world == first.world
            &&& changes_nothing(second.steps)
        }),
{
    lemma_run(user, group, world);
    let settled = run(user, group, world).world;
    lemma_run(user, group, settled);
    lemma_second_run_finishes(user, group, settled);
}

/// In a world where the directory is as wanted and each name that is given
/// is known, the setup finishes.
proof fn lemma_second_run_finishes(user: Option<Seq<char>>, group: Option<Seq<char>>, world: World)
    requires
        known(world.users, user),
        known(world.groups, group),
        world.dir matches Some(dir) && dir.mode == DATA_DIR_MODE && dir.uid == wanted_id(
            world.users,
            user,
            dir.uid,
        ) && dir.gid == wanted_id(world.groups, group, dir.gid),
    ensures
        run(user, group, world).last is Finish,
{
    reveal_with_fuel(run_from, 5);
}

} // verus!
