//! The order in which the daemon starts.
//!
//! Starting up is a chain of steps, each of which may fail. The library
//! names the step that is due and takes the report on it; the caller
//! performs it. Requests are served only at the end of the chain, after the
//! socket was bound and the privileges were given up, in this order.

use vstd::prelude::*;

verus! {

/// One step of the start.
#[derive(Clone, Copy, Debug, PartialEq, Eq, Structural)]
pub enum BootStep {
    /// Read the configuration.
    LoadConfig,
    /// Set up the data directory.
    SetupDirectory,
    /// Make the challenge directory the working directory.
    ChangeDirectory,
    /// Bind the listening socket.
    BindSocket,
    /// Give up the privileges for good.
    DropPrivileges,
    /// Begin to accept connections on the socket.
    Serve,
}

/// How far the start has come.
#[derive(Clone, Copy, Debug, PartialEq, Eq, Structural)]
pub enum Lifecycle {
    Unconfigured,
    ConfigLoaded,
    DirectorySetup,
    WorkingDirectoryChanged,
    SocketBound,
    PrivilegeDropped,
    /// Connections are accepted. The daemon stays here until it is stopped.
    Serving,
    /// The step named has failed. The daemon stays here and exits.
    Failed(BootStep),
}

impl Lifecycle {
    /// The step that is due, if any is.
    pub open spec fn due(self) -> Option<BootStep> {
        match self {
            Lifecycle::Unconfigured => Some(BootStep::LoadConfig),
            Lifecycle::ConfigLoaded => Some(BootStep::SetupDirectory),
            Lifecycle::DirectorySetup => Some(BootStep::ChangeDirectory),
            Lifecycle::WorkingDirectoryChanged => Some(BootStep::BindSocket),
            Lifecycle::SocketBound => Some(BootStep::DropPrivileges),
            Lifecycle::PrivilegeDropped => Some(BootStep::Serve),
            Lifecycle::Serving => None,
            Lifecycle::Failed(_) => None,
        }
    }

    /// The state that follows once the step that was due has succeeded.
    pub open spec fn next(self) -> Lifecycle {
        match self {
            Lifecycle::Unconfigured => Lifecycle::ConfigLoaded,
            Lifecycle::ConfigLoaded => Lifecycle::DirectorySetup,
            Lifecycle::DirectorySetup => Lifecycle::WorkingDirectoryChanged,
            Lifecycle::WorkingDirectoryChanged => Lifecycle::SocketBound,
            Lifecycle::SocketBound => Lifecycle::PrivilegeDropped,
            Lifecycle::PrivilegeDropped => Lifecycle::Serving,
            Lifecycle::Serving => Lifecycle::Serving,
            Lifecycle::Failed(step) => Lifecycle::Failed(step),
        }
    }

    /// The state after the report on the step that was due: one state
    /// on where it succeeded, the failure of that step where it did not.
    /// Where no step was due, nothing changes.
    pub open spec fn after(self, succeeded: bool) -> Lifecycle {
        match self.due() {
            Some(step) => if succeeded {
                self.next()
            } else {
                Lifecycle::Failed(step)
            },
            None => self,
        }
    }

    /// The state in which a daemon starts.
    pub fn new() -> (r: Lifecycle)
        ensures
            r == Lifecycle::Unconfigured,
    {
        Lifecycle::Unconfigured
    }

    /// The step that the caller is to perform now, if any.
    pub fn next_step(&self) -> (r: Option<BootStep>)
        ensures
            r == self.due(),
    {
        match self {
            Lifecycle::Unconfigured => Some(BootStep::LoadConfig),
            Lifecycle::ConfigLoaded => Some(BootStep::SetupDirectory),
            Lifecycle::DirectorySetup => Some(BootStep::ChangeDirectory),
            Lifecycle::WorkingDirectoryChanged => Some(BootStep::BindSocket),
            Lifecycle::SocketBound => Some(BootStep::DropPrivileges),
            Lifecycle::PrivilegeDropped => Some(BootStep::Serve),
            Lifecycle::Serving => None,
            Lifecycle::Failed(_) => None,
        }
    }

    /// Takes the report on the step that was due.
    pub fn advance(self, succeeded: bool) -> (r: Lifecycle)
        ensures
            r == self.after(succeeded),
    {
        match self.next_step() {
            None => self,
            Some(step) => if !succeeded {
                Lifecycle::Failed(step)
            } else {
                match self {
                    Lifecycle::Unconfigured => Lifecycle::ConfigLoaded,
                    Lifecycle::ConfigLoaded => Lifecycle::DirectorySetup,
                    Lifecycle::DirectorySetup => Lifecycle::WorkingDirectoryChanged,
                    Lifecycle::WorkingDirectoryChanged => Lifecycle::SocketBound,
                    Lifecycle::SocketBound => Lifecycle::PrivilegeDropped,
                    Lifecycle::PrivilegeDropped => Lifecycle::Serving,
                    Lifecycle::Serving => Lifecycle::Serving,
                    Lifecycle::Failed(failed) => Lifecycle::Failed(failed),
                }
            },
        }
    }

    /// Whether connections are accepted.
    pub fn is_serving(&self) -> (r: bool)
        ensures
            r == (*self == Lifecycle::Serving),
    {
        match self {
            Lifecycle::Serving => true,
            _ => false,
        }
    }

    /// The step that failed, if one did.
    pub fn failure(&self) -> (r: Option<BootStep>)
        ensures
            r == match *self {
                Lifecycle::Failed(step) => Some(step),
                _ => None::<BootStep>,
            },
    {
        match self {
            Lifecycle::Failed(step) => Some(*step),
            _ => None,
        }
    }
}

/// The state of a daemon that has got these reports since it started, one
/// report for each step that was due.
pub open spec fn lifecycle_after(reports: Seq<bool>) -> Lifecycle
    decreases reports.len(),
{
    if reports.len() == 0 {
        Lifecycle::Unconfigured
    } else {
        lifecycle_after(reports.drop_last()).after(reports.last())
    }
}

/// Whether the report at `i` says that `step` was due and has succeeded.
pub open spec fn succeeded_at(reports: Seq<bool>, step: BootStep, i: int) -> bool {
    0 <= i < reports.len() && lifecycle_after(reports.take(i)).due() == Some(step) && reports[i]
}

/// Whether the report at `i` is one on `step`.
pub open spec fn reported_at(reports: Seq<bool>, step: BootStep, i: int) -> bool {
    0 <= i < reports.len() && lifecycle_after(reports.take(i)).due() == Some(step)
}

/// Whether the socket was bound and the privileges were given up
/// afterwards.
pub open spec fn bound_then_dropped(reports: Seq<bool>) -> bool {
    exists|i: int, j: int|
        i < j && #[trigger] succeeded_at(reports, BootStep::BindSocket, i) && #[trigger] succeeded_at(
            reports,
            BootStep::DropPrivileges,
            j,
        )
}

/// How many steps a state has behind it; a state in which no step is due
/// counts as the end.
pub open spec fn rank(state: Lifecycle) -> int {
    match state {
        Lifecycle::Unconfigured => 0,
        Lifecycle::ConfigLoaded => 1,
        Lifecycle::DirectorySetup => 2,
        Lifecycle::WorkingDirectoryChanged => 3,
        Lifecycle::SocketBound => 4,
        Lifecycle::PrivilegeDropped => 5,
        Lifecycle::Serving => 6,
        Lifecycle::Failed(_) => 6,
    }
}

/// What held of a part of the reports holds of the whole.
proof fn lemma_succeeded_before(reports: Seq<bool>, step: BootStep, i: int)
    requires
        reports.len() > 0,
        succeeded_at(reports.drop_last(), step, i),
    ensures
        succeeded_at(reports, step, i),
{
    assert(reports.drop_last().take(i) =~= reports.take(i));
}

/// What the state says of the reports that led to it.
proof fn lemma_history(reports: Seq<bool>)
    ensures
        lifecycle_after(reports) == Lifecycle::SocketBound ==> exists|i: int| #[trigger]
            succeeded_at(reports, BootStep::BindSocket, i),
        lifecycle_after(reports) == Lifecycle::PrivilegeDropped || lifecycle_after(reports)
            == Lifecycle::Serving ==> bound_then_dropped(reports),
    decreases reports.len(),
{
    if reports.len() > 0 {
        let before = reports.drop_last();
        let last = reports.len() - 1;
        lemma_history(before);
        assert(reports.take(last) =~= before);
        let state = lifecycle_after(reports);
        if state == Lifecycle::SocketBound {
            assert(succeeded_at(reports, BootStep::BindSocket, last));
        } else if state == Lifecycle::PrivilegeDropped {
            let i = choose|i: int| #[trigger] succeeded_at(before, BootStep::BindSocket, i);
            lemma_succeeded_before(reports, BootStep::BindSocket, i);
            assert(succeeded_at(reports, BootStep::DropPrivileges, last));
        } else if state == Lifecycle::Serving {
            let (i, j) = choose|i: int, j: int|
                i < j && #[trigger] succeeded_at(before, BootStep::BindSocket, i)
                    && #[trigger] succeeded_at(before, BootStep::DropPrivileges, j);
            lemma_succeeded_before(reports, BootStep::BindSocket, i);
            lemma_succeeded_before(reports, BootStep::DropPrivileges, j);
        }
    }
}

/// Each report on a step that was due takes the daemon one state on or to
/// its end.
proof fn lemma_rank_grows(reports: Seq<bool>, i: int)
    requires
        0 <= i <= reports.len(),
    ensures
        rank(lifecycle_after(reports.take(i))) <= rank(lifecycle_after(reports)),
        i < reports.len() && lifecycle_after(reports.take(i)).due() is Some ==> rank(
            lifecycle_after(reports.take(i)),
        ) < rank(lifecycle_after(reports)),
    decreases reports.len(),
{
    if i == reports.len() {
        assert(reports.take(i) =~= reports);
    } else {
        let before = reports.drop_last();
        assert(before.take(i) =~= reports.take(i));
        lemma_rank_grows(before, i);
        if i == before.len() {
            assert(before.take(i) =~= before);
        }
    }
}

/// Wherever connections are accepted, or are about to be, the socket was
/// bound while the daemon was privileged and the privileges were given up
/// after that: no request is handled by a privileged daemon.
pub proof fn law_serving_follows_privilege_drop(reports: Seq<bool>)
    requires
        lifecycle_after(reports) == Lifecycle::Serving || lifecycle_after(reports).due() == Some(
            BootStep::Serve,
        ),
    ensures
        bound_then_dropped(reports),
{
    lemma_history(reports);
}

/// The privileges are given up at most once: no two reports are on that
/// step. The same holds of every other step.
pub proof fn law_each_step_once(reports: Seq<bool>, step: BootStep, i: int, j: int)
    requires
        reported_at(reports, step, i),
        reported_at(reports, step, j),
    ensures
        i == j,
{
    if i < j {
        assert(reports.take(j).take(i) =~= reports.take(i));
        lemma_rank_grows(reports.take(j), i);
    } else if j < i {
        assert(reports.take(i).take(j) =~= reports.take(j));
        lemma_rank_grows(reports.take(i), j);
    }
}

/// A step that fails ends the start: whatever is reported afterwards, the
/// daemon never serves.
pub proof fn law_failure_is_final(reports: Seq<bool>, i: int)
    requires
        0 <= i < reports.len(),
        lifecycle_after(reports.take(i)).due() is Some,
        !reports[i],
    ensures
        lifecycle_after(reports) is Failed,
    decreases reports.len(),
{
    let before = reports.drop_last();
    if i == reports.len() - 1 {
        assert(before =~= reports.take(i));
    } else {
        assert(before.take(i) =~= reports.take(i));
        law_failure_is_final(before, i);
    }
}

} // verus!
