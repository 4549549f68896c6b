use wofi_power_menu::error::SelectionError;
use wofi_power_menu::executor::{plan, RunPlan};
use wofi_power_menu::flow::{resolve_selection, SelectionOutcome};
use wofi_power_menu::power_menu::{default_menu, SessionManager};

#[test]
fn an_empty_selection_is_a_cancellation() {
    let menu = default_menu(SessionManager::Systemd);
    assert!(matches!(
        resolve_selection(&menu, ""),
        Ok(SelectionOutcome::Cancelled)
    ));
}

#[test]
fn a_non_numeric_selection_is_an_error() {
    let menu = default_menu(SessionManager::Systemd);
    match resolve_selection(&menu, "first") {
        Err(SelectionError::NotNumeric { input }) => assert_eq!(input, "first"),
        other => panic!("expected NotNumeric, got {:?}", other),
    }
}

#[test]
fn a_selection_past_the_enabled_items_is_an_error() {
    let menu = default_menu(SessionManager::Systemd);
    match resolve_selection(&menu, "6") {
        Err(SelectionError::OutOfRange { input }) => assert_eq!(input, "6"),
        other => panic!("expected OutOfRange, got {:?}", other),
    }
}

#[test]
fn an_unconfirmed_item_resolves_straight_to_its_command() {
    let menu = default_menu(SessionManager::Systemd);
    match resolve_selection(&menu, "3") {
        Ok(SelectionOutcome::Run(cmd)) => assert_eq!(cmd, "systemctl hibernate"),
        other => panic!("expected Run, got {:?}", other),
    }
}

#[test]
fn shutdown_confirms_and_then_runs_the_poweroff_command() {
    let menu = default_menu(SessionManager::Systemd);
    let conf = match resolve_selection(&menu, "0") {
        Ok(SelectionOutcome::Confirm(conf)) => conf,
        other => panic!("expected Confirm, got {:?}", other),
    };
    assert_eq!(conf.title().as_str(), "Are you sure?");
    assert_eq!(conf.nth(0).unwrap().title().as_str(), "Yes, Shut down");
    let cmd = match resolve_selection(&conf, "0") {
        Ok(SelectionOutcome::Run(cmd)) => cmd,
        other => panic!("expected Run, got {:?}", other),
    };
    assert_eq!(cmd, "systemctl poweroff");
    match plan(&cmd, false) {
        RunPlan::Invoke { program, args, dry_run } => {
            assert_eq!(program, "systemctl");
            assert_eq!(args, vec!["poweroff"]);
            assert!(!dry_run);
        }
        other => panic!("expected Invoke, got {:?}", other),
    }
}

#[test]
fn the_elogind_family_builds_elogind_commands() {
    let menu = default_menu(SessionManager::Elogind);
    let conf = match resolve_selection(&menu, "0") {
        Ok(SelectionOutcome::Confirm(conf)) => conf,
        other => panic!("expected Confirm, got {:?}", other),
    };
    match resolve_selection(&conf, "0") {
        Ok(SelectionOutcome::Run(cmd)) => assert_eq!(cmd, "elogind poweroff"),
        other => panic!("expected Run, got {:?}", other),
    }
}

#[test]
fn declining_the_confirmation_resolves_to_a_no_op() {
    let menu = default_menu(SessionManager::Systemd);
    let conf = match resolve_selection(&menu, "0") {
        Ok(SelectionOutcome::Confirm(conf)) => conf,
        other => panic!("expected Confirm, got {:?}", other),
    };
    let cmd = match resolve_selection(&conf, "1") {
        Ok(SelectionOutcome::Run(cmd)) => cmd,
        other => panic!("expected Run, got {:?}", other),
    };
    assert_eq!(cmd, "");
    assert!(matches!(plan(&cmd, false), RunPlan::NoOp));
}

#[test]
fn an_empty_command_plans_no_spawn() {
    assert!(matches!(plan("", false), RunPlan::NoOp));
    assert!(matches!(plan("", true), RunPlan::NoOp));
}

#[test]
fn a_whitespace_command_plans_no_spawn() {
    assert!(matches!(plan("   \t ", false), RunPlan::NoOp));
}

#[test]
fn a_command_splits_into_program_and_arguments() {
    match plan("loginctl terminate-session now", false) {
        RunPlan::Invoke { program, args, dry_run } => {
            assert_eq!(program, "loginctl");
            assert_eq!(args, vec!["terminate-session", "now"]);
            assert!(!dry_run);
        }
        other => panic!("expected Invoke, got {:?}", other),
    }
}

#[test]
fn a_dry_run_keeps_its_flag_through_planning() {
    match plan("systemctl reboot", true) {
        RunPlan::Invoke { program, args, dry_run } => {
            assert_eq!(program, "systemctl");
            assert_eq!(args, vec!["reboot"]);
            assert!(dry_run);
        }
        other => panic!("expected Invoke, got {:?}", other),
    }
}
