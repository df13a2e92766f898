use vstd::prelude::*;
use crate::context::{has_window, main_label, Context};
use crate::error::StartupError;
use crate::platform::{spec_main_window_required, spec_strategy_for, Platform, SetupStrategy};

verus! {

/// What the setup hook yields, given whether the `"main"` window exists.
pub open spec fn spec_hook_outcome(strategy: SetupStrategy, main_present: bool) -> Result<
    (),
    StartupError,
> {
    match strategy {
        SetupStrategy::RequireMainWindow => if main_present {
            Ok(())
        } else {
            Err(StartupError::SetupHookFailed)
        },
        SetupStrategy::NoOp => Ok(()),
    }
}

/// What the setup hook yields on a host with the given window registry.
pub open spec fn spec_setup_hook(strategy: SetupStrategy, windows: Seq<String>) -> Result<
    (),
    StartupError,
> {
    spec_hook_outcome(strategy, has_window(windows, main_label()))
}

/// The decision of the setup hook once the `"main"` window has been looked
/// up: a required window that is absent is a fatal error; a strategy that
/// requires nothing never fails.
pub fn hook_outcome(strategy: SetupStrategy, main_present: bool) -> (r: Result<(), StartupError>)
    ensures
        r == spec_hook_outcome(strategy, main_present),
        strategy == SetupStrategy::NoOp ==> r.is_ok(),
        strategy == SetupStrategy::RequireMainWindow ==> (r.is_ok() <==> main_present),
{
    match strategy {
        SetupStrategy::RequireMainWindow => if main_present {
            Ok(())
        } else {
            Err(StartupError::SetupHookFailed)
        },
        SetupStrategy::NoOp => Ok(()),
    }
}

/// Runs the setup hook against the host's window registry.
pub fn run_setup_hook(strategy: SetupStrategy, ctx: &Context) -> (r: Result<(), StartupError>)
    ensures
        r == spec_setup_hook(strategy, ctx.windows@),
        strategy == SetupStrategy::NoOp ==> r.is_ok(),
        strategy == SetupStrategy::RequireMainWindow ==> (r.is_ok() <==> has_window(
            ctx.windows@,
            main_label(),
        )),
{
    match strategy {
        SetupStrategy::NoOp => hook_outcome(strategy, true),
        SetupStrategy::RequireMainWindow => {
            let label = String::from_str("main");
            proof {
                reveal_strlit("main");
                assert(label@ =~= main_label());
            }
            let found = ctx.get_window(&label);
            hook_outcome(strategy, found.is_some())
        },
    }
}

/// On a platform whose policy requires the `"main"` window, the hook fails
/// exactly when the window is absent; on every other platform it does
/// nothing and never fails, whatever the registry holds.
pub proof fn lemma_platform_hook_policy(p: Platform, windows: Seq<String>)
    ensures
        spec_main_window_required(p) ==> (spec_setup_hook(spec_strategy_for(p), windows) is Ok
            <==> has_window(windows, main_label())),
        spec_main_window_required(p) && !has_window(windows, main_label()) ==> spec_setup_hook(
            spec_strategy_for(p),
            windows,
        ) == Err::<(), StartupError>(StartupError::SetupHookFailed),
        !spec_main_window_required(p) ==> spec_setup_hook(spec_strategy_for(p), windows) == Ok::<
            (),
            StartupError,
        >(()),
{
}

} // verus!
