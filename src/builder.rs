use vstd::prelude::*;
use crate::platform::{spec_strategy_for, strategy_for, Platform, SetupStrategy};

verus! {

/// A capability plugin, as the builder knows it: by name. Its initializer
/// belongs to the host runtime, which runs it when asked.
#[derive(Clone, Debug, PartialEq, Eq)]
pub struct PluginDescriptor {
    pub name: String,
}

/// Accumulates plugins, in registration order, and at most one setup hook.
/// Registering a second hook replaces the first: the last registration wins.
#[derive(Clone, Debug)]
pub struct HostBuilder {
    pub plugins: Vec<PluginDescriptor>,
    pub hook: Option<SetupStrategy>,
}

/// The strategy that runs at setup time: the registered hook, or nothing.
pub open spec fn spec_effective_strategy(hook: Option<SetupStrategy>) -> SetupStrategy {
    match hook {
        Some(s) => s,
        None => SetupStrategy::NoOp,
    }
}

pub open spec fn shell_label() -> Seq<char> {
    seq!['s', 'h', 'e', 'l', 'l']
}

pub open spec fn updater_label() -> Seq<char> {
    seq!['u', 'p', 'd', 'a', 't', 'e', 'r']
}

impl PluginDescriptor {
    pub fn named(name: String) -> (r: PluginDescriptor)
        ensures
            r.name == name,
    {
        PluginDescriptor { name }
    }
}

impl HostBuilder {
    /// A builder with no plugins and no hook.
    pub fn new() -> (r: HostBuilder)
        ensures
            r.plugins@ == Seq::<PluginDescriptor>::empty(),
            r.hook.is_none(),
    {
        HostBuilder { plugins: Vec::new(), hook: None }
    }

    /// Appends a plugin after those already registered.
    pub fn with_plugin(self, plugin: PluginDescriptor) -> (r: HostBuilder)
        ensures
            r.plugins@ == self.plugins@.push(plugin),
            r.hook == self.hook,
    {
        let mut plugins = self.plugins;
        plugins.push(plugin);
        HostBuilder { plugins, hook: self.hook }
    }

    /// Registers the setup hook, replacing any registered before.
    pub fn with_setup_hook(self, strategy: SetupStrategy) -> (r: HostBuilder)
        ensures
            r.plugins@ == self.plugins@,
            r.hook == Some(strategy),
    {
        HostBuilder { plugins: self.plugins, hook: Some(strategy) }
    }

    /// The strategy that the built host runs at setup time.
    pub fn effective_strategy(&self) -> (r: SetupStrategy)
        ensures
            r == spec_effective_strategy(self.hook),
    {
        match self.hook {
            Some(s) => s,
            None => SetupStrategy::NoOp,
        }
    }
}

/// The application's own assembly: the shell-execution plugin, then the
/// self-update plugin, and the setup hook that the platform calls for.
pub fn application_builder(platform: Platform) -> (r: HostBuilder)
    ensures
        r.plugins@.len() == 2,
        r.plugins@[0].name@ == shell_label(),
        r.plugins@[1].name@ == updater_label(),
        r.hook == Some(spec_strategy_for(platform)),
{
    let shell = PluginDescriptor::named(String::from_str("shell"));
    let updater = PluginDescriptor::named(String::from_str("updater"));
    proof {
        reveal_strlit("shell");
        reveal_strlit("updater");
        assert(shell.name@ =~= shell_label());
        assert(updater.name@ =~= updater_label());
    }
    HostBuilder::new().with_plugin(shell).with_plugin(updater).with_setup_hook(
        strategy_for(platform),
    )
}

} // verus!
