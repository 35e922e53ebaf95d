//! The single boot path of the shell, as a machine that names the next action
//! and takes its outcome. Whoever drives it performs the action and reports
//! back; the machine decides what follows.

use vstd::prelude::*;
use crate::commands::{lookup_among, registered, registry, resolves_among, Command};
use crate::plugins::{delivered, delivers, planned, BuildProfile, Plugin};
use crate::severity::Severity;

verus! {

/// Where the shell stands on its way from start to exit.
#[derive(Clone, Copy, Debug, PartialEq, Eq, Structural)]
pub enum Phase {
    Uninitialized,
    PluginsInstalled,
    CommandsRegistered,
    Running,
    Exited,
}

/// Why the shell ended other than by the user closing the window.
#[derive(Clone, Copy, Debug, PartialEq, Eq, Structural)]
pub enum Failure {
    /// Installing the opener, registering the commands or generating the
    /// application context failed.
    Boot,
    /// Installing the logger inside the setup hook failed.
    SetupHook,
    /// The framework failed while the event loop ran.
    Runtime,
}

/// What became of the action that the machine last named.
#[derive(Clone, Copy, Debug, PartialEq, Eq, Structural)]
pub enum Outcome {
    Succeeded,
    Failed,
}

/// What the driver is to do next.
#[derive(Clone, Copy, Debug, PartialEq, Eq, Structural)]
pub enum Action {
    /// Install this plugin.
    InstallPlugin(Plugin),
    /// Register the command registry with `read` and `write`.
    RegisterCommands,
    /// Generate the application context and start the event loop.
    Start,
    /// Serve the front-end until the window is closed.
    Serve,
    /// End the process, cleanly or with this failure.
    Terminate(Option<Failure>),
}

/// The message of a fatal end.
pub open spec fn fatal_text() -> Seq<char> {
    "error while running tauri application"@
}

/// The status the process ends with: 0 after a clean shutdown, and after a
/// failure 101, which a panicking process reports.
pub open spec fn exit_code_of(failure: Option<Failure>) -> int {
    match failure {
        None => 0,
        Some(_) => 101,
    }
}

/// The state of the machine as plain values.
pub struct ShellView {
    pub profile: BuildProfile,
    pub phase: Phase,
    pub plugins: Seq<Plugin>,
    pub commands: Seq<Command>,
    pub failure: Option<Failure>,
}

impl ShellView {
    /// The state before anything was done.
    pub open spec fn initial(profile: BuildProfile) -> ShellView {
        ShellView {
            profile,
            phase: Phase::Uninitialized,
            plugins: Seq::empty(),
            commands: Seq::empty(),
            failure: None,
        }
    }

    /// The installed plugins are the first of the plan, in its order.
    pub open spec fn plugins_follow_plan(self) -> bool {
        &&& self.plugins.len() <= planned(self.profile).len()
        &&& self.plugins =~= planned(self.profile).take(self.plugins.len() as int)
    }

    /// What holds of every state the machine can be in.
    pub open spec fn wf(self) -> bool {
        &&& self.plugins_follow_plan()
        &&& match self.phase {
            Phase::Uninitialized => {
                &&& self.plugins.len() < planned(self.profile).len()
                &&& self.commands =~= Seq::empty()
                &&& self.failure is None
            },
            Phase::PluginsInstalled => {
                &&& self.plugins.len() == planned(self.profile).len()
                &&& self.commands =~= Seq::empty()
                &&& self.failure is None
            },
            Phase::CommandsRegistered | Phase::Running => {
                &&& self.plugins.len() == planned(self.profile).len()
                &&& self.commands =~= registered()
                &&& self.failure is None
            },
            Phase::Exited => {
                &&& self.commands =~= Seq::empty() || self.commands =~= registered()
                &&& self.commands =~= registered() ==> self.plugins.len() == planned(
                    self.profile,
                ).len()
                &&& match self.failure {
                    None | Some(Failure::Runtime) => self.commands =~= registered(),
                    Some(Failure::SetupHook) => {
                        &&& self.plugins.len() < planned(self.profile).len()
                        &&& planned(self.profile)[self.plugins.len() as int] is Logger
                    },
                    Some(Failure::Boot) => self.plugins.len() < planned(self.profile).len()
                        ==> planned(self.profile)[self.plugins.len() as int] == Plugin::Opener,
                }
            },
        }
    }

    /// The failure that a failed action amounts to in this state.
    pub open spec fn blame(self) -> Failure {
        match self.phase {
            Phase::Uninitialized => match planned(self.profile)[self.plugins.len() as int] {
                Plugin::Logger(_) => Failure::SetupHook,
                Plugin::Opener => Failure::Boot,
            },
            Phase::PluginsInstalled | Phase::CommandsRegistered => Failure::Boot,
            Phase::Running | Phase::Exited => Failure::Runtime,
        }
    }

    /// What the driver is to do in this state.
    pub open spec fn next_action(self) -> Action {
        match self.phase {
            Phase::Uninitialized => Action::InstallPlugin(
                planned(self.profile)[self.plugins.len() as int],
            ),
            Phase::PluginsInstalled => Action::RegisterCommands,
            Phase::CommandsRegistered => Action::Start,
            Phase::Running => Action::Serve,
            Phase::Exited => Action::Terminate(self.failure),
        }
    }

    /// The state after the named action ended with `outcome`. A failure ends
    /// the run at once; an ended run stays as it is.
    pub open spec fn after(self, outcome: Outcome) -> ShellView {
        match (self.phase, outcome) {
            (Phase::Exited, _) => self,
            (_, Outcome::Failed) => ShellView {
                profile: self.profile,
                phase: Phase::Exited,
                plugins: self.plugins,
                commands: self.commands,
                failure: Some(self.blame()),
            },
            (Phase::Uninitialized, Outcome::Succeeded) => {
                let plan = planned(self.profile);
                let plugins = self.plugins.push(plan[self.plugins.len() as int]);
                ShellView {
                    profile: self.profile,
                    phase: if plugins.len() == plan.len() {
                        Phase::PluginsInstalled
                    } else {
                        Phase::Uninitialized
                    },
                    plugins,
                    commands: self.commands,
                    failure: None,
                }
            },
            (Phase::PluginsInstalled, Outcome::Succeeded) => ShellView {
                profile: self.profile,
                phase: Phase::CommandsRegistered,
                plugins: self.plugins,
                commands: registered(),
                failure: None,
            },
            (Phase::CommandsRegistered, Outcome::Succeeded) => ShellView {
                profile: self.profile,
                phase: Phase::Running,
                plugins: self.plugins,
                commands: self.commands,
                failure: None,
            },
            (Phase::Running, Outcome::Succeeded) => ShellView {
                profile: self.profile,
                phase: Phase::Exited,
                plugins: self.plugins,
                commands: self.commands,
                failure: None,
            },
        }
    }

    /// The state after a run of outcomes, taken one after the other.
    pub open spec fn after_all(self, outcomes: Seq<Outcome>) -> ShellView
        decreases outcomes.len(),
    {
        if outcomes.len() == 0 {
            self
        } else {
            self.after(outcomes[0]).after_all(outcomes.drop_first())
        }
    }

    /// The command that the bridge hands an invocation of `name` to. Only a
    /// running shell serves the front-end.
    pub open spec fn routes(self, name: Seq<char>) -> Option<Command> {
        if self.phase == Phase::Running {
            resolves_among(self.commands, name)
        } else {
            None
        }
    }
}

/// The shell on its boot path.
pub struct Shell {
    profile: BuildProfile,
    phase: Phase,
    plugins: Vec<Plugin>,
    commands: Vec<Command>,
    failure: Option<Failure>,
}

impl View for Shell {
    type V = ShellView;

    closed spec fn view(&self) -> ShellView {
        ShellView {
            profile: self.profile,
            phase: self.phase,
            plugins: self.plugins@,
            commands: self.commands@,
            failure: self.failure,
        }
    }
}

impl Shell {
    /// A shell of the given build, with nothing installed yet.
    pub fn new(profile: BuildProfile) -> (shell: Shell)
        ensures
            shell@ == ShellView::initial(profile),
            shell@.wf(),
    {
        let shell = Shell {
            profile,
            phase: Phase::Uninitialized,
            plugins: Vec::new(),
            commands: Vec::new(),
            failure: None,
        };
        assert(shell@.plugins =~= Seq::empty());
        assert(shell@.commands =~= Seq::empty());
        shell
    }

    /// What the driver is to do next.
    pub fn next_action(&self) -> (action: Action)
        requires
            self@.wf(),
        ensures
            action == self@.next_action(),
    {
        match self.phase {
            Phase::Uninitialized => {
                match self.profile.plugin_at(self.plugins.len()) {
                    Some(plugin) => Action::InstallPlugin(plugin),
                    None => Action::RegisterCommands,
                }
            },
            Phase::PluginsInstalled => Action::RegisterCommands,
            Phase::CommandsRegistered => Action::Start,
            Phase::Running => Action::Serve,
            Phase::Exited => Action::Terminate(self.failure),
        }
    }

    /// Takes the outcome of the action that `next_action` named.
    pub fn advance(&mut self, outcome: Outcome)
        requires
            old(self)@.wf(),
        ensures
            final(self)@ == old(self)@.after(outcome),
            final(self)@.wf(),
    {
        proof {
            lemma_after_keeps_wf(self@, outcome);
        }
        match (self.phase, outcome) {
            (Phase::Exited, _) => {},
            (Phase::Uninitialized, Outcome::Failed) => {
                self.failure = match self.profile.plugin_at(self.plugins.len()) {
                    Some(Plugin::Logger(_)) => Some(Failure::SetupHook),
                    _ => Some(Failure::Boot),
                };
                self.phase = Phase::Exited;
            },
            (Phase::PluginsInstalled, Outcome::Failed) | (
                Phase::CommandsRegistered,
                Outcome::Failed,
            ) => {
                self.failure = Some(Failure::Boot);
                self.phase = Phase::Exited;
            },
            (Phase::Running, Outcome::Failed) => {
                self.failure = Some(Failure::Runtime);
                self.phase = Phase::Exited;
            },
            (Phase::Uninitialized, Outcome::Succeeded) => {
                if let Some(plugin) = self.profile.plugin_at(self.plugins.len()) {
                    self.plugins.push(plugin);
                }
                if self.profile.plugin_at(self.plugins.len()).is_none() {
                    self.phase = Phase::PluginsInstalled;
                }
            },
            (Phase::PluginsInstalled, Outcome::Succeeded) => {
                self.commands = registry();
                self.phase = Phase::CommandsRegistered;
            },
            (Phase::CommandsRegistered, Outcome::Succeeded) => {
                self.phase = Phase::Running;
            },
            (Phase::Running, Outcome::Succeeded) => {
                self.phase = Phase::Exited;
            },
        }
        assert(self@.plugins =~= old(self)@.after(outcome).plugins);
        assert(self@.commands =~= old(self)@.after(outcome).commands);
    }

    /// The command that an invocation of `name` from the front-end is handed
    /// to, or `None` where the bridge finds no such command.
    pub fn route(&self, name: &str) -> (target: Option<Command>)
        ensures
            target == self@.routes(name@),
    {
        match self.phase {
            Phase::Running => lookup_among(&self.commands, name),
            _ => None,
        }
    }

    /// Whether a native log record of this severity reaches a sink of the
    /// plugins installed so far.
    pub fn emits(&self, severity: Severity) -> (emitted: bool)
        ensures
            emitted == delivered(self@.plugins, severity),
    {
        delivers(&self.plugins, severity)
    }

    pub fn profile(&self) -> (profile: BuildProfile)
        ensures
            profile == self@.profile,
    {
        self.profile
    }

    pub fn phase(&self) -> (phase: Phase)
        ensures
            phase == self@.phase,
    {
        self.phase
    }

    /// The plugins installed so far, in installation order.
    pub fn plugins(&self) -> (plugins: &Vec<Plugin>)
        ensures
            plugins@ == self@.plugins,
    {
        &self.plugins
    }

    /// The commands registered so far, in registration order.
    pub fn commands(&self) -> (commands: &Vec<Command>)
        ensures
            commands@ == self@.commands,
    {
        &self.commands
    }

    pub fn failure(&self) -> (failure: Option<Failure>)
        ensures
            failure == self@.failure,
    {
        self.failure
    }
}

/// The status to end the process with.
pub fn exit_code(failure: Option<Failure>) -> (code: i32)
    ensures
        code == exit_code_of(failure),
        (code == 0) == (failure is None),
{
    match failure {
        None => 0,
        Some(_) => 101,
    }
}

/// The message to end the process with after a failure.
pub fn fatal_message() -> (message: &'static str)
    ensures
        message@ == fatal_text(),
{
    "error while running tauri application"
}

/// Every step leads from a well-formed state to a well-formed state.
pub proof fn lemma_after_keeps_wf(state: ShellView, outcome: Outcome)
    requires
        state.wf(),
    ensures
        state.after(outcome).wf(),
        state.after(outcome).profile == state.profile,
{
    let next = state.after(outcome);
    let plan = planned(state.profile);
    assert(next.plugins =~= plan.take(next.plugins.len() as int));
}

/// The phases are passed in one order and never entered again: a step stays
/// where it is, moves one phase on, or ends the run.
pub proof fn lemma_single_path(state: ShellView, outcome: Outcome)
    requires
        state.wf(),
    ensures
        state.phase == Phase::Exited ==> state.after(outcome) == state,
        phase_index(state.phase) <= phase_index(state.after(outcome).phase),
        outcome == Outcome::Succeeded ==> phase_index(state.after(outcome).phase)
            <= phase_index(state.phase) + 1,
{
}

/// The place of a phase on the boot path.
pub open spec fn phase_index(phase: Phase) -> nat {
    match phase {
        Phase::Uninitialized => 0,
        Phase::PluginsInstalled => 1,
        Phase::CommandsRegistered => 2,
        Phase::Running => 3,
        Phase::Exited => 4,
    }
}

/// A failed action before the end is fatal: the run ends at once, with a
/// failure and a nonzero status, and nothing is installed or registered on
/// the way.
pub proof fn lemma_failure_is_fatal(state: ShellView)
    requires
        state.wf(),
        state.phase != Phase::Exited,
    ensures
        state.after(Outcome::Failed).phase == Phase::Exited,
        state.after(Outcome::Failed).failure is Some,
        exit_code_of(state.after(Outcome::Failed).failure) != 0,
        state.after(Outcome::Failed).next_action() == Action::Terminate(
            state.after(Outcome::Failed).failure,
        ),
        state.after(Outcome::Failed).plugins == state.plugins,
        state.after(Outcome::Failed).commands == state.commands,
        state.phase == Phase::CommandsRegistered ==> state.after(Outcome::Failed).failure
            == Some(Failure::Boot),
{
}

/// A setup-hook failure comes only in a debug build, with the opener
/// installed, the logger not, and no command registered.
pub proof fn lemma_setup_failure_only_in_debug(state: ShellView)
    requires
        state.wf(),
        state.failure == Some(Failure::SetupHook),
    ensures
        state.profile == BuildProfile::Debug,
        state.phase == Phase::Exited,
        state.plugins == seq![Plugin::Opener],
        state.commands == Seq::<Command>::empty(),
{
    let plan = planned(state.profile);
    assert(state.plugins =~= plan.take(1));
    assert(plan.take(1) =~= seq![Plugin::Opener]);
}

/// Once the commands are registered, neither they nor the plugins change.
pub proof fn lemma_registry_is_immutable(state: ShellView, outcome: Outcome)
    requires
        state.wf(),
        state.commands == registered(),
    ensures
        state.after(outcome).commands == registered(),
        state.after(outcome).plugins == state.plugins,
{
    assert(registered()[0] == Command::Read);
}

/// What is installed and registered once the boot is through depends on the
/// build alone: two shells of one build that stand in the same phase after
/// the plugins were installed are equal.
pub proof fn lemma_launches_agree(first: ShellView, second: ShellView)
    requires
        first.wf(),
        second.wf(),
        first.profile == second.profile,
        first.phase == second.phase,
        first.phase != Phase::Uninitialized,
        first.phase != Phase::Exited,
    ensures
        first.plugins == second.plugins,
        first.commands == second.commands,
        first == second,
{
    let plan = planned(first.profile);
    assert(first.plugins =~= plan.take(plan.len() as int));
    assert(second.plugins =~= plan.take(plan.len() as int));
    assert(first.commands =~= second.commands);
}

/// A running shell has the whole plan installed, the opener included, and
/// both commands registered under their names.
pub proof fn lemma_running_is_complete(state: ShellView, command: Command)
    requires
        state.wf(),
        state.phase == Phase::Running,
    ensures
        state.plugins == planned(state.profile),
        state.plugins.contains(Plugin::Opener),
        state.commands == registered(),
        state.routes(command.spec_name()) == Some(command),
{
    let plan = planned(state.profile);
    assert(state.plugins =~= plan.take(plan.len() as int));
    assert(plan.take(plan.len() as int) =~= plan);
    crate::plugins::lemma_opener_always_planned(state.profile);
    crate::commands::lemma_own_name_resolves(command);
}

/// A running shell emits a record exactly when it is a debug build and the
/// record is informational or more serious.
pub proof fn lemma_running_logs_by_profile(state: ShellView, severity: Severity)
    requires
        state.wf(),
        state.phase == Phase::Running,
    ensures
        delivered(state.plugins, severity) == (state.profile == BuildProfile::Debug
            && severity.at_least_info()),
{
    lemma_running_is_complete(state, Command::Read);
    crate::plugins::lemma_logging_follows_profile(state.profile, severity);
}

/// When every action succeeds, the shell of a build runs after one step for
/// each planned plugin and two more.
pub proof fn lemma_boot_reaches_running(profile: BuildProfile)
    ensures
        ShellView::initial(profile).wf(),
        ShellView::initial(profile).after_all(
            Seq::new(planned(profile).len() + 2, |i: int| Outcome::Succeeded),
        ).phase == Phase::Running,
{
    let start = ShellView::initial(profile);
    assert(start.plugins =~= planned(profile).take(0));
    let all = Seq::new(planned(profile).len() + 2, |i: int| Outcome::Succeeded);
    reveal_with_fuel(ShellView::after_all, 6);
    let a1 = all.drop_first();
    let a2 = a1.drop_first();
    let a3 = a2.drop_first();
    let a4 = a3.drop_first();
    assert(all[0] == Outcome::Succeeded);
    assert(a1[0] == Outcome::Succeeded);
    assert(a2[0] == Outcome::Succeeded);
    if profile == BuildProfile::Debug {
        assert(a3[0] == Outcome::Succeeded);
        assert(a4.len() == 0);
    } else {
        assert(a3.len() == 0);
    }
}

} // verus!
