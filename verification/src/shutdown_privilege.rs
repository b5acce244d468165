//! Enabling the shutdown privilege on the process token: the constants and
//! the name handed to the platform, and the error reported for each step
//! that can fail. The token calls themselves are the shell's.

use vstd::prelude::*;

verus! {

/// Token access right: adjust privileges.
pub const TOKEN_ADJUST_PRIVILEGES: u32 = 0x20;

/// Token access right: query.
pub const TOKEN_QUERY: u32 = 0x8;

/// Attribute marking a privilege as enabled.
pub const SE_PRIVILEGE_ENABLED: u32 = 0x2;

/// The access rights requested when opening the process token: adjusting
/// privileges, together with querying.
pub fn token_access_flags() -> (f: u32)
    ensures
        f == (TOKEN_ADJUST_PRIVILEGES | TOKEN_QUERY),
{
    TOKEN_ADJUST_PRIVILEGES | TOKEN_QUERY
}

/// The name of the privilege looked up and enabled.
pub fn shutdown_privilege_name() -> (s: &'static str)
    ensures
        s@ == "SeShutdownPrivilege"@,
{
    "SeShutdownPrivilege"
}

/// The three platform calls of the privilege sequence, in order; each can
/// fail.
#[derive(Clone, Copy, Debug, PartialEq, Eq, Structural)]
pub enum PrivilegeStep {
    OpenToken,
    LookupPrivilegeValue,
    AdjustTokenPrivileges,
}

/// The message reported for a failing step.
pub open spec fn step_failure_msg(step: PrivilegeStep) -> Seq<char> {
    match step {
        PrivilegeStep::OpenToken => "failed to open the process token"@,
        PrivilegeStep::LookupPrivilegeValue => "failed to find the LUID for SeShutdownPrivilege"@,
        PrivilegeStep::AdjustTokenPrivileges => "failed to enable SeShutdownPrivilege"@,
    }
}

/// Reports the privilege sequence's outcome: the first failing step's
/// message, if any; otherwise the adjustment's after-call error code must
/// also be clear, since the adjustment call can report partial success only
/// there. Success exactly when every step went through with a clear code.
pub fn privilege_result(failed_step: Option<PrivilegeStep>, last_error: u32) -> (r: Result<
    (),
    String,
>)
    ensures
        failed_step matches Some(s) ==> (r matches Err(m) && m@ == step_failure_msg(s)),
        failed_step is None && last_error != 0 ==> (r matches Err(m)
            && m@ == "AdjustTokenPrivileges reported an error"@),
        failed_step is None && last_error == 0 ==> r is Ok,
        r is Ok <==> (failed_step is None && last_error == 0),
{
    match failed_step {
        Some(PrivilegeStep::OpenToken) => Err("failed to open the process token".to_owned()),
        Some(PrivilegeStep::LookupPrivilegeValue) => Err(
            "failed to find the LUID for SeShutdownPrivilege".to_owned(),
        ),
        Some(PrivilegeStep::AdjustTokenPrivileges) => Err(
            "failed to enable SeShutdownPrivilege".to_owned(),
        ),
        None => {
            if last_error != 0 {
                Err("AdjustTokenPrivileges reported an error".to_owned())
            } else {
                Ok(())
            }
        },
    }
}

} // verus!
