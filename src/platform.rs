use vstd::prelude::*;

verus! {

/// The operating system the application is built for.
#[derive(Clone, Copy, Debug, PartialEq, Eq, Structural)]
pub enum Platform {
    MacOs,
    Windows,
    Linux,
    Ios,
    Android,
}

/// What the one-shot setup hook does.
#[derive(Clone, Copy, Debug, PartialEq, Eq, Structural)]
pub enum SetupStrategy {
    /// The `"main"` window must exist; its absence is a fatal startup error.
    RequireMainWindow,
    /// Nothing is looked up and nothing is adjusted.
    NoOp,
}

/// The policy table: the platforms on which the `"main"` window is required
/// at setup time.
pub open spec fn spec_main_window_required(p: Platform) -> bool {
    p == Platform::MacOs
}

pub open spec fn spec_strategy_for(p: Platform) -> SetupStrategy {
    if spec_main_window_required(p) {
        SetupStrategy::RequireMainWindow
    } else {
        SetupStrategy::NoOp
    }
}

/// Whether the platform needs the `"main"` window at setup time.
pub fn main_window_required(p: Platform) -> (r: bool)
    ensures
        r == spec_main_window_required(p),
{
    match p {
        Platform::MacOs => true,
        _ => false,
    }
}

/// The setup strategy selected for a platform: the platform-specific
/// adjustment where the policy table requires the window, else nothing.
pub fn strategy_for(p: Platform) -> (r: SetupStrategy)
    ensures
        r == spec_strategy_for(p),
{
    if main_window_required(p) {
        SetupStrategy::RequireMainWindow
    } else {
        SetupStrategy::NoOp
    }
}

} // verus!
