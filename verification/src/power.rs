//! Power state transitions: which flags a reboot or shutdown request hands
//! the platform, and how each call's outcome is reported. The calls
//! themselves — suspend, and the session-exit call — are the shell's.

use vstd::prelude::*;

verus! {

/// Flag for a session-exit call that reboots.
pub const EWX_REBOOT: u32 = 0x2;

/// Flag for a session-exit call that powers off.
pub const EWX_POWEROFF: u32 = 0x8;

/// Flag forcing termination of hung applications during a session exit.
pub const EWX_FORCEIFHUNG: u32 = 0x10;

/// Errors of the power module: a platform call reported failure.
#[derive(Clone, Debug, PartialEq, Eq)]
pub enum PowerError {
    WinApi(String),
}

impl PowerError {
    /// The human-readable message surfaced at the UI boundary.
    pub fn message(&self) -> (r: String)
        ensures
            self matches PowerError::WinApi(d) ==> r@ == d@,
    {
        match self {
            PowerError::WinApi(d) => d.clone(),
        }
    }
}

/// The two session-exit transitions a caller can request.
#[derive(Clone, Copy, Debug, PartialEq, Eq, Structural)]
pub enum PowerTransition {
    Reboot,
    Shutdown,
}

/// The flag word handed to the session-exit call for a transition: the
/// transition's own flag, always together with forced termination of hung
/// applications.
pub fn transition_flags(t: PowerTransition) -> (f: u32)
    ensures
        t is Reboot ==> f == (EWX_REBOOT | EWX_FORCEIFHUNG),
        t is Shutdown ==> f == (EWX_POWEROFF | EWX_FORCEIFHUNG),
{
    match t {
        PowerTransition::Reboot => EWX_REBOOT | EWX_FORCEIFHUNG,
        PowerTransition::Shutdown => EWX_POWEROFF | EWX_FORCEIFHUNG,
    }
}

/// Reports a suspend call's outcome: success as-is, failure as the
/// platform-call error.
pub fn sleep_result(api_ok: bool) -> (r: Result<(), PowerError>)
    ensures
        api_ok ==> r is Ok,
        !api_ok ==> (r matches Err(PowerError::WinApi(m))
            && m@ == "SetSuspendState returned FALSE"@),
{
    if api_ok {
        Ok(())
    } else {
        Err(PowerError::WinApi("SetSuspendState returned FALSE".to_owned()))
    }
}

/// The failure message for a session-exit call, per transition.
pub open spec fn exit_failure_msg(t: PowerTransition) -> Seq<char> {
    if t is Reboot {
        "ExitWindowsEx (reboot) returned FALSE"@
    } else {
        "ExitWindowsEx (shutdown) returned FALSE"@
    }
}

/// Reports a session-exit request's outcome. The privilege step comes
/// first: its error passes through unchanged as a platform-call error, and
/// the exit call is never made. Otherwise the exit call's own outcome
/// decides.
pub fn exit_result(t: PowerTransition, privilege: Result<(), String>, api_ok: bool) -> (r: Result<
    (),
    PowerError,
>)
    ensures
        privilege matches Err(m) ==> r == Err::<(), _>(PowerError::WinApi(m)),
        privilege is Ok && api_ok ==> r is Ok,
        privilege is Ok && !api_ok ==> (r matches Err(PowerError::WinApi(m))
            && m@ == exit_failure_msg(t)),
{
    match privilege {
        Err(m) => Err(PowerError::WinApi(m)),
        Ok(()) => {
            if api_ok {
                Ok(())
            } else {
                match t {
                    PowerTransition::Reboot => Err(
                        PowerError::WinApi("ExitWindowsEx (reboot) returned FALSE".to_owned()),
                    ),
                    PowerTransition::Shutdown => Err(
                        PowerError::WinApi("ExitWindowsEx (shutdown) returned FALSE".to_owned()),
                    ),
                }
            }
        },
    }
}

} // verus!
