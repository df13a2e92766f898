pub mod bootstrap;
pub mod builder;
pub mod context;
pub mod error;
pub mod hook;
pub mod platform;

pub use bootstrap::{Action, Bootstrap, Event, Phase, Stage};
pub use builder::{application_builder, HostBuilder, PluginDescriptor};
pub use context::Context;
pub use error::{exit_status, StartupError, FAILURE_STATUS, SUCCESS_STATUS};
pub use hook::{hook_outcome, run_setup_hook};
pub use platform::{main_window_required, strategy_for, Platform, SetupStrategy};
