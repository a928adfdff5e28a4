//! The answer to the agent's request to use the computer, from the first
//! screenshot that the approved request takes.

use vstd::prelude::*;

verus! {

/// The answer to a request to use the computer: the first screenshot `S`
/// and the platform `P` it was taken on, or an error.
#[derive(Debug, PartialEq, Eq)]
pub enum RequestComputerUseResult<S, P> {
    Approved { screenshot: S, platform: P },
    Error(String),
}

/// The answer once the approved request ran: `outcome` is the screenshot
/// taken, if any, or the error of the attempt; `platform` is the platform, if
/// known. A screenshot on a known platform approves; a screenshot on an
/// unknown platform, a missing screenshot, or a failure is an error.
pub fn computer_use_result<S, P>(outcome: Result<Option<S>, String>, platform: Option<P>) -> (result:
    RequestComputerUseResult<S, P>)
    ensures
        match outcome {
            Ok(Some(s)) => match platform {
                Some(p) => result == RequestComputerUseResult::Approved { screenshot: s, platform: p },
                None => result matches RequestComputerUseResult::Error(e) && e@ == "Unknown platform"@,
            },
            Ok(None) => result matches RequestComputerUseResult::Error(e) && e@
                == "Failed to capture initial screenshot"@,
            Err(err) => result == RequestComputerUseResult::<S, P>::Error(err),
        },
{
    match outcome {
        Ok(Some(screenshot)) => match platform {
            Some(platform) => RequestComputerUseResult::Approved { screenshot, platform },
            None => RequestComputerUseResult::Error(String::from_str("Unknown platform")),
        },
        Ok(None) => RequestComputerUseResult::Error(String::from_str("Failed to capture initial screenshot")),
        Err(err) => RequestComputerUseResult::Error(err),
    }
}

/// How the profile lets the agent use the computer.
#[derive(Clone, Copy, Debug, PartialEq, Eq, Structural)]
pub enum ComputerUsePermission {
    Never,
    AlwaysAsk,
    AlwaysAllow,
}

/// Whether a request to use the computer runs without asking: only when the
/// profile always allows it.
pub fn should_autoexecute_computer_use(permission: ComputerUsePermission) -> (auto: bool)
    ensures
        auto == (permission == ComputerUsePermission::AlwaysAllow),
{
    match permission {
        ComputerUsePermission::AlwaysAllow => true,
        _ => false,
    }
}

} // verus!
