use vstd::prelude::*;
use crate::builder::{spec_effective_strategy, HostBuilder, PluginDescriptor};
use crate::context::Context;
use crate::error::{StartupError, FAILURE_STATUS, SUCCESS_STATUS};
use crate::hook::{run_setup_hook, spec_setup_hook};
use crate::platform::SetupStrategy;

verus! {

/// One step of startup, as recorded in a host's history.
#[derive(Clone, Copy, Debug, PartialEq, Eq, Structural)]
pub enum Stage {
    /// The initializer of the plugin registered at this position was asked to run.
    Plugin { index: usize },
    /// The setup point was reached and the setup hook ran.
    Hook,
    /// The run loop was entered.
    Loop,
}

/// Where startup stands.
#[derive(Clone, Debug, PartialEq, Eq)]
pub enum Phase {
    /// Waiting for the initializer of the plugin at `next` to report.
    InitPlugins { next: usize },
    /// The run loop is dispatching events.
    Running,
    /// The run loop ended after a shutdown event.
    Stopped,
    /// Startup or the run loop failed; nothing more happens.
    Failed { error: StartupError },
}

/// What the runtime around the host is asked to do next.
#[derive(Clone, Debug, PartialEq, Eq)]
pub enum Action {
    /// Run the initializer of the plugin registered at `index`.
    InitPlugin { index: usize },
    /// Enter the event loop and report how it ends.
    EnterRunLoop,
    /// Nothing: the event did not apply to the current phase.
    Wait,
    /// End the process with this status.
    Exit { status: i32 },
}

/// What the runtime reports back.
#[derive(Clone, Debug, PartialEq, Eq)]
pub enum Event {
    /// The plugin initializer that was asked for succeeded.
    PluginReady,
    /// The plugin initializer that was asked for failed.
    PluginFailed,
    /// A shutdown event reached the run loop, which returned.
    Shutdown,
    /// The platform event source failed irrecoverably.
    LoopFailed { reason: String },
}

/// The complete startup of a host with `n` plugins: each initializer in
/// registration order, then the setup hook, then the run loop.
pub open spec fn script(n: nat) -> Seq<Stage> {
    Seq::new(
        n + 2,
        |i: int|
            if i < n {
                Stage::Plugin { index: i as usize }
            } else if i == n {
                Stage::Hook
            } else {
                Stage::Loop
            },
    )
}

/// Where startup goes once every plugin is initialized: the setup hook runs,
/// and on success the run loop is entered.
pub open spec fn spec_after_plugins(strategy: SetupStrategy, context: Context) -> (Phase, Action) {
    match spec_setup_hook(strategy, context.windows@) {
        Ok(()) => (Phase::Running, Action::EnterRunLoop),
        Err(e) => (Phase::Failed { error: e }, Action::Exit { status: FAILURE_STATUS }),
    }
}

/// A host in startup: the plugins and hook from its builder, the window
/// registry from its configuration, and the phase it is in.
pub struct Bootstrap {
    pub plugins: Vec<PluginDescriptor>,
    pub strategy: SetupStrategy,
    pub context: Context,
    pub phase: Phase,
    /// The stages run so far.
    pub history: Ghost<Seq<Stage>>,
}

impl Bootstrap {
    /// The history is a prefix of the complete script, as long as the phase
    /// says.
    pub open spec fn wf(&self) -> bool {
        let h = self.history@;
        let n = self.plugins@.len();
        &&& n <= usize::MAX
        &&& h.len() <= n + 2
        &&& h == script(n).take(h.len() as int)
        &&& match self.phase {
            Phase::InitPlugins { next } => next < n && h.len() == next + 1,
            Phase::Running => h.len() == n + 2,
            Phase::Stopped => h.len() == n + 2,
            Phase::Failed { error } => match error {
                StartupError::ContextInvalid => h.len() == 0,
                StartupError::PluginInitFailed { .. } => 1 <= h.len() <= n,
                StartupError::SetupHookFailed => h.len() == n + 1,
                StartupError::RuntimeFatal { .. } => h.len() == n + 2,
            },
        }
    }

    /// The phase and action that follow an event.
    pub open spec fn spec_step(&self, event: Event) -> (Phase, Action) {
        match self.phase {
            Phase::InitPlugins { next } => match event {
                Event::PluginReady => if next + 1 < self.plugins@.len() {
                    (
                        Phase::InitPlugins { next: (next + 1) as usize },
                        Action::InitPlugin { index: (next + 1) as usize },
                    )
                } else {
                    spec_after_plugins(self.strategy, self.context)
                },
                Event::PluginFailed => (
                    Phase::Failed {
                        error: StartupError::PluginInitFailed {
                            name: self.plugins@[next as int].name,
                        },
                    },
                    Action::Exit { status: FAILURE_STATUS },
                ),
                _ => (self.phase, Action::Wait),
            },
            Phase::Running => match event {
                Event::Shutdown => (Phase::Stopped, Action::Exit { status: SUCCESS_STATUS }),
                Event::LoopFailed { reason } => (
                    Phase::Failed { error: StartupError::RuntimeFatal { reason } },
                    Action::Exit { status: FAILURE_STATUS },
                ),
                _ => (self.phase, Action::Wait),
            },
            _ => (self.phase, Action::Wait),
        }
    }

    /// Runs the setup hook once every plugin is initialized, and enters the
    /// run loop if it succeeds.
    fn finish_setup(&mut self) -> (a: Action)
        requires
            old(self).plugins@.len() <= usize::MAX,
            old(self).history@ == script(old(self).plugins@.len()).take(
                old(self).plugins@.len() as int,
            ),
        ensures
            final(self).wf(),
            final(self).plugins == old(self).plugins,
            final(self).strategy == old(self).strategy,
            final(self).context == old(self).context,
            (final(self).phase, a) == spec_after_plugins(old(self).strategy, old(self).context),
    {
        let ghost n = self.plugins@.len();
        proof {
            self.history@ = self.history@.push(Stage::Hook);
            assert(self.history@ =~= script(n).take(n + 1 as int));
        }
        match run_setup_hook(self.strategy, &self.context) {
            Ok(()) => {
                self.phase = Phase::Running;
                proof {
                    self.history@ = self.history@.push(Stage::Loop);
                    assert(self.history@ =~= script(n).take(n + 2 as int));
                }
                Action::EnterRunLoop
            },
            Err(e) => {
                self.phase = Phase::Failed { error: e };
                Action::Exit { status: FAILURE_STATUS }
            },
        }
    }

    /// Builds the host: checks the configuration, then asks for the first
    /// plugin's initializer, or runs the setup hook when there are no plugins.
    pub fn start(builder: HostBuilder, context: Context) -> (r: (Bootstrap, Action))
        ensures
            r.0.wf(),
            r.0.plugins@ == builder.plugins@,
            r.0.strategy == spec_effective_strategy(builder.hook),
            r.0.context == context,
            !context.spec_is_valid() ==> r.0.phase == (Phase::Failed {
                error: StartupError::ContextInvalid,
            }) && r.1 == (Action::Exit { status: FAILURE_STATUS }),
            context.spec_is_valid() && builder.plugins@.len() > 0 ==> r.0.phase
                == (Phase::InitPlugins { next: 0 }) && r.1 == (Action::InitPlugin { index: 0 }),
            context.spec_is_valid() && builder.plugins@.len() == 0 ==> (r.0.phase, r.1)
                == spec_after_plugins(r.0.strategy, context),
    {
        let strategy = builder.effective_strategy();
        let valid = context.is_valid();
        let mut b = Bootstrap {
            plugins: builder.plugins,
            strategy,
            context,
            phase: Phase::Failed { error: StartupError::ContextInvalid },
            history: Ghost(Seq::empty()),
        };
        let count = b.plugins.len();
        if !valid {
            proof {
                assert(b.history@ =~= script(b.plugins@.len()).take(0));
            }
            return (b, Action::Exit { status: FAILURE_STATUS });
        }
        if count == 0 {
            proof {
                assert(b.history@ =~= script(0).take(0));
            }
            let a = b.finish_setup();
            return (b, a);
        }
        b.phase = Phase::InitPlugins { next: 0 };
        proof {
            b.history@ = b.history@.push(Stage::Plugin { index: 0 });
            assert(b.history@ =~= script(b.plugins@.len()).take(1));
        }
        (b, Action::InitPlugin { index: 0 })
    }

    /// Advances startup by one reported event.
    pub fn step(&mut self, event: Event) -> (a: Action)
        requires
            old(self).wf(),
        ensures
            final(self).wf(),
            final(self).plugins == old(self).plugins,
            final(self).strategy == old(self).strategy,
            final(self).context == old(self).context,
            (final(self).phase, a) == old(self).spec_step(event),
            a == Action::Wait ==> final(self).history == old(self).history,
    {
        let ghost n = self.plugins@.len();
        match self.phase {
            Phase::InitPlugins { next } => match event {
                Event::PluginReady => {
                    if next < self.plugins.len() - 1 {
                        self.phase = Phase::InitPlugins { next: next + 1 };
                        proof {
                            self.history@ = self.history@.push(
                                Stage::Plugin { index: (next + 1) as usize },
                            );
                            assert(self.history@ =~= script(n).take(next + 2 as int));
                        }
                        Action::InitPlugin { index: next + 1 }
                    } else {
                        self.finish_setup()
                    }
                },
                Event::PluginFailed => {
                    let name = self.plugins[next].name.clone();
                    self.phase = Phase::Failed {
                        error: StartupError::PluginInitFailed { name },
                    };
                    Action::Exit { status: FAILURE_STATUS }
                },
                _ => Action::Wait,
            },
            Phase::Running => match event {
                Event::Shutdown => {
                    self.phase = Phase::Stopped;
                    Action::Exit { status: SUCCESS_STATUS }
                },
                Event::LoopFailed { reason } => {
                    self.phase = Phase::Failed { error: StartupError::RuntimeFatal { reason } };
                    Action::Exit { status: FAILURE_STATUS }
                },
                _ => Action::Wait,
            },
            _ => Action::Wait,
        }
    }
}

/// Whatever the registration order, plugin initializers are asked for in
/// exactly that order, each once, and all of them before the setup hook.
pub proof fn lemma_plugins_in_registration_order(b: &Bootstrap)
    requires
        b.wf(),
    ensures
        forall|i: int|
            0 <= i < b.history@.len() && i < b.plugins@.len() ==> b.history@[i] == (Stage::Plugin {
                index: i as usize,
            }),
        forall|i: int, p: usize|
            0 <= i < b.history@.len() && b.history@[i] == (Stage::Plugin { index: p }) ==> i
                == p as int && p < b.plugins@.len(),
        forall|i: int|
            0 <= i < b.history@.len() && b.history@[i] == Stage::Hook ==> i == b.plugins@.len(),
{
}

/// The setup hook runs at most once, only after every plugin, and the run
/// loop is entered only right after it; a host whose loop was entered ran
/// the hook exactly once.
pub proof fn lemma_hook_once_before_run_loop(b: &Bootstrap)
    requires
        b.wf(),
    ensures
        forall|i: int, j: int|
            0 <= i < j < b.history@.len() && b.history@[i] == Stage::Hook ==> b.history@[j]
                != Stage::Hook,
        forall|j: int|
            0 <= j < b.history@.len() && #[trigger] b.history@[j] == Stage::Loop ==> j == b.plugins@.len() + 1
                && b.history@[j - 1] == Stage::Hook,
        b.phase == Phase::Running || b.phase == Phase::Stopped ==> b.history@.len()
            == b.plugins@.len() + 2 && b.history@[b.plugins@.len() as int] == Stage::Hook,
{
}

/// After a plugin initializer fails, neither the setup hook nor the run
/// loop has run, and no later event starts them.
pub proof fn lemma_plugin_failure_never_runs_loop(b: &Bootstrap, event: Event)
    requires
        b.wf(),
        b.phase matches Phase::Failed { error: StartupError::PluginInitFailed { .. } },
    ensures
        forall|i: int|
            0 <= i < b.history@.len() ==> b.history@[i] != Stage::Hook && b.history@[i]
                != Stage::Loop,
        b.spec_step(event) == (b.phase, Action::Wait),
{
}

} // verus!
