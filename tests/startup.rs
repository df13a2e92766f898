use app_bootstrap::{
    application_builder, exit_status, hook_outcome, main_window_required, run_setup_hook,
    strategy_for, Action, Bootstrap, Context, Event, HostBuilder, Phase, Platform,
    PluginDescriptor, SetupStrategy, StartupError,
};

fn context_with(labels: &[&str]) -> Context {
    Context { windows: labels.iter().map(|l| l.to_string()).collect() }
}

fn plugin(name: &str) -> PluginDescriptor {
    PluginDescriptor::named(name.to_string())
}

/// Feeds `PluginReady` for every requested initializer and collects the
/// indices asked for, until an action other than `InitPlugin` comes.
fn init_all(host: &mut Bootstrap, first: Action) -> (Vec<usize>, Action) {
    let mut order = Vec::new();
    let mut action = first;
    while let Action::InitPlugin { index } = action {
        order.push(index);
        action = host.step(Event::PluginReady);
    }
    (order, action)
}

#[test]
fn mac_with_main_window_starts_and_runs() {
    let builder = application_builder(Platform::MacOs);
    let names: Vec<&str> = builder.plugins.iter().map(|p| p.name.as_str()).collect();
    assert_eq!(names, vec!["shell", "updater"]);
    let (mut host, first) = Bootstrap::start(builder, context_with(&["main"]));
    let (order, action) = init_all(&mut host, first);
    assert_eq!(order, vec![0, 1]);
    assert_eq!(action, Action::EnterRunLoop);
    assert_eq!(host.phase, Phase::Running);
}

#[test]
fn mac_without_main_window_fails_setup() {
    let builder = application_builder(Platform::MacOs);
    let (mut host, first) = Bootstrap::start(builder, context_with(&["settings"]));
    let (order, action) = init_all(&mut host, first);
    assert_eq!(order, vec![0, 1]);
    assert_eq!(action, Action::Exit { status: 1 });
    assert_eq!(host.phase, Phase::Failed { error: StartupError::SetupHookFailed });
    assert_eq!(host.step(Event::Shutdown), Action::Wait);
    assert_eq!(host.phase, Phase::Failed { error: StartupError::SetupHookFailed });
}

#[test]
fn other_platform_without_main_window_starts() {
    for platform in [Platform::Windows, Platform::Linux, Platform::Ios, Platform::Android] {
        let builder = application_builder(platform);
        let (mut host, first) = Bootstrap::start(builder, context_with(&[]));
        let (order, action) = init_all(&mut host, first);
        assert_eq!(order, vec![0, 1]);
        assert_eq!(action, Action::EnterRunLoop);
        assert_eq!(host.phase, Phase::Running);
    }
}

#[test]
fn plugins_are_initialized_in_registration_order() {
    let builder = HostBuilder::new()
        .with_plugin(plugin("c"))
        .with_plugin(plugin("a"))
        .with_plugin(plugin("b"))
        .with_setup_hook(SetupStrategy::NoOp);
    let (mut host, first) = Bootstrap::start(builder, context_with(&["main"]));
    let (order, action) = init_all(&mut host, first);
    let names: Vec<&str> = order.iter().map(|&i| host.plugins[i].name.as_str()).collect();
    assert_eq!(names, vec!["c", "a", "b"]);
    assert_eq!(action, Action::EnterRunLoop);
}

#[test]
fn no_plugins_runs_hook_at_once() {
    let builder = HostBuilder::new().with_setup_hook(SetupStrategy::RequireMainWindow);
    let (host, first) = Bootstrap::start(builder.clone(), context_with(&["main"]));
    assert_eq!(first, Action::EnterRunLoop);
    assert_eq!(host.phase, Phase::Running);
    let (host, first) = Bootstrap::start(builder, context_with(&[]));
    assert_eq!(first, Action::Exit { status: 1 });
    assert_eq!(host.phase, Phase::Failed { error: StartupError::SetupHookFailed });
}

#[test]
fn failing_plugin_stops_startup() {
    let builder = application_builder(Platform::MacOs);
    let (mut host, first) = Bootstrap::start(builder, context_with(&["main"]));
    assert_eq!(first, Action::InitPlugin { index: 0 });
    assert_eq!(host.step(Event::PluginReady), Action::InitPlugin { index: 1 });
    assert_eq!(host.step(Event::PluginFailed), Action::Exit { status: 1 });
    assert_eq!(
        host.phase,
        Phase::Failed { error: StartupError::PluginInitFailed { name: "updater".to_string() } }
    );
    assert_eq!(host.step(Event::PluginReady), Action::Wait);
    assert_eq!(host.step(Event::Shutdown), Action::Wait);
}

#[test]
fn first_plugin_failure_names_it() {
    let builder = application_builder(Platform::Linux);
    let (mut host, _) = Bootstrap::start(builder, context_with(&[]));
    assert_eq!(host.step(Event::PluginFailed), Action::Exit { status: 1 });
    assert_eq!(
        host.phase,
        Phase::Failed { error: StartupError::PluginInitFailed { name: "shell".to_string() } }
    );
}

#[test]
fn shutdown_ends_run_loop_with_success() {
    let builder = application_builder(Platform::Linux);
    let (mut host, first) = Bootstrap::start(builder, context_with(&["main"]));
    let (_, action) = init_all(&mut host, first);
    assert_eq!(action, Action::EnterRunLoop);
    assert_eq!(host.step(Event::PluginReady), Action::Wait);
    assert_eq!(host.phase, Phase::Running);
    assert_eq!(host.step(Event::Shutdown), Action::Exit { status: 0 });
    assert_eq!(host.phase, Phase::Stopped);
}

#[test]
fn event_source_failure_is_fatal() {
    let builder = application_builder(Platform::Windows);
    let (mut host, first) = Bootstrap::start(builder, context_with(&["main"]));
    init_all(&mut host, first);
    let action = host.step(Event::LoopFailed { reason: "display lost".to_string() });
    assert_eq!(action, Action::Exit { status: 1 });
    assert_eq!(
        host.phase,
        Phase::Failed { error: StartupError::RuntimeFatal { reason: "display lost".to_string() } }
    );
}

#[test]
fn duplicate_window_labels_are_invalid() {
    let ctx = context_with(&["main", "about", "main"]);
    assert!(!ctx.is_valid());
    let (host, first) = Bootstrap::start(application_builder(Platform::MacOs), ctx);
    assert_eq!(first, Action::Exit { status: 1 });
    assert_eq!(host.phase, Phase::Failed { error: StartupError::ContextInvalid });
    assert!(context_with(&[]).is_valid());
    assert!(context_with(&["main", "about"]).is_valid());
}

#[test]
fn window_lookup_by_label() {
    let ctx = context_with(&["about", "main"]);
    assert_eq!(ctx.get_window(&"main".to_string()), Some(1));
    assert_eq!(ctx.get_window(&"about".to_string()), Some(0));
    assert_eq!(ctx.get_window(&"mai".to_string()), None);
    assert_eq!(context_with(&[]).get_window(&"main".to_string()), None);
}

#[test]
fn setup_hook_follows_platform_policy() {
    let with_main = context_with(&["main"]);
    let without = context_with(&["Main", "other"]);
    let mac = strategy_for(Platform::MacOs);
    assert_eq!(mac, SetupStrategy::RequireMainWindow);
    assert_eq!(run_setup_hook(mac, &with_main), Ok(()));
    assert_eq!(run_setup_hook(mac, &without), Err(StartupError::SetupHookFailed));
    let linux = strategy_for(Platform::Linux);
    assert_eq!(linux, SetupStrategy::NoOp);
    assert_eq!(run_setup_hook(linux, &without), Ok(()));
    assert_eq!(hook_outcome(mac, false), Err(StartupError::SetupHookFailed));
    assert_eq!(hook_outcome(mac, true), Ok(()));
    assert_eq!(hook_outcome(SetupStrategy::NoOp, false), Ok(()));
}

#[test]
fn window_required_only_on_mac() {
    assert!(main_window_required(Platform::MacOs));
    assert!(!main_window_required(Platform::Windows));
    assert!(!main_window_required(Platform::Linux));
    assert!(!main_window_required(Platform::Ios));
    assert!(!main_window_required(Platform::Android));
}

#[test]
fn last_registered_hook_wins() {
    let builder = HostBuilder::new()
        .with_setup_hook(SetupStrategy::RequireMainWindow)
        .with_setup_hook(SetupStrategy::NoOp);
    assert_eq!(builder.hook, Some(SetupStrategy::NoOp));
    assert_eq!(builder.effective_strategy(), SetupStrategy::NoOp);
    assert_eq!(HostBuilder::new().effective_strategy(), SetupStrategy::NoOp);
    let (host, first) = Bootstrap::start(builder, context_with(&[]));
    assert_eq!(first, Action::EnterRunLoop);
    assert_eq!(host.phase, Phase::Running);
}

#[test]
fn exit_status_is_zero_only_on_success() {
    assert_eq!(exit_status(&Ok(())), 0);
    assert_eq!(exit_status(&Err(StartupError::ContextInvalid)), 1);
    assert_eq!(exit_status(&Err(StartupError::SetupHookFailed)), 1);
    assert_eq!(
        exit_status(&Err(StartupError::PluginInitFailed { name: "shell".to_string() })),
        1
    );
    assert_eq!(
        exit_status(&Err(StartupError::RuntimeFatal { reason: "x".to_string() })),
        1
    );
}
