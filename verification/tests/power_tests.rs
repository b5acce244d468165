use desk_shell::power::EWX_FORCEIFHUNG;
use desk_shell::power::EWX_POWEROFF;
use desk_shell::power::EWX_REBOOT;
use desk_shell::power::PowerError;
use desk_shell::power::PowerTransition;
use desk_shell::power::exit_result;
use desk_shell::power::sleep_result;
use desk_shell::power::transition_flags;
use desk_shell::shutdown_privilege::PrivilegeStep;
use desk_shell::shutdown_privilege::privilege_result;
use desk_shell::shutdown_privilege::shutdown_privilege_name;
use desk_shell::shutdown_privilege::token_access_flags;

#[test]
fn transition_flags_force_hung_applications() {
    assert_eq!(transition_flags(PowerTransition::Reboot), EWX_REBOOT | EWX_FORCEIFHUNG);
    assert_eq!(transition_flags(PowerTransition::Reboot), 0x12);
    assert_eq!(transition_flags(PowerTransition::Shutdown), EWX_POWEROFF | EWX_FORCEIFHUNG);
    assert_eq!(transition_flags(PowerTransition::Shutdown), 0x18);
}

#[test]
fn sleep_outcome_is_reported() {
    assert_eq!(sleep_result(true), Ok(()));
    let e = sleep_result(false).unwrap_err();
    assert_eq!(e, PowerError::WinApi("SetSuspendState returned FALSE".to_string()));
    assert_eq!(e.message(), "SetSuspendState returned FALSE");
}

#[test]
fn exit_outcome_per_transition() {
    assert_eq!(exit_result(PowerTransition::Reboot, Ok(()), true), Ok(()));
    assert_eq!(
        exit_result(PowerTransition::Reboot, Ok(()), false),
        Err(PowerError::WinApi("ExitWindowsEx (reboot) returned FALSE".to_string()))
    );
    assert_eq!(
        exit_result(PowerTransition::Shutdown, Ok(()), false),
        Err(PowerError::WinApi("ExitWindowsEx (shutdown) returned FALSE".to_string()))
    );
}

#[test]
fn privilege_errors_pass_through_unchanged() {
    let r = exit_result(PowerTransition::Shutdown, Err("no privilege".to_string()), true);
    assert_eq!(r, Err(PowerError::WinApi("no privilege".to_string())));
}

#[test]
fn token_constants() {
    assert_eq!(token_access_flags(), 0x28);
    assert_eq!(shutdown_privilege_name(), "SeShutdownPrivilege");
}

#[test]
fn privilege_sequence_reports_the_first_failing_step() {
    assert_eq!(
        privilege_result(Some(PrivilegeStep::OpenToken), 0),
        Err("failed to open the process token".to_string())
    );
    assert_eq!(
        privilege_result(Some(PrivilegeStep::LookupPrivilegeValue), 0),
        Err("failed to find the LUID for SeShutdownPrivilege".to_string())
    );
    assert_eq!(
        privilege_result(Some(PrivilegeStep::AdjustTokenPrivileges), 0),
        Err("failed to enable SeShutdownPrivilege".to_string())
    );
    assert_eq!(
        privilege_result(None, 1300),
        Err("AdjustTokenPrivileges reported an error".to_string())
    );
    assert_eq!(privilege_result(None, 0), Ok(()));
}
