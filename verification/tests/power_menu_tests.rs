use wofi_power_menu::power_menu::{
    default_menu, default_wofi, merge_cli_args, merge_config, CliArgs, SessionManager,
};
use wofi_power_menu::config::{Config, ItemConfig, KeyValue, WofiConfig};

fn plain_args() -> CliArgs {
    CliArgs {
        verbose: false,
        wofi_path: None,
        disable: Vec::new(),
        dry_run: false,
        confirm: Vec::new(),
        list_items: false,
        config: None,
        session_manager: SessionManager::Systemd,
    }
}

#[test]
fn the_default_menu_holds_the_six_actions_in_order() {
    let menu = default_menu(SessionManager::Systemd);
    let ids: Vec<String> = menu.describe_items();
    assert_eq!(ids.len(), 6);
    assert_eq!(menu.nth(0).unwrap().id().as_str(), "shutdown");
    assert_eq!(menu.nth(1).unwrap().id().as_str(), "reboot");
    assert_eq!(menu.nth(2).unwrap().id().as_str(), "suspend");
    assert_eq!(menu.nth(3).unwrap().id().as_str(), "hibernate");
    assert_eq!(menu.nth(4).unwrap().id().as_str(), "logout");
    assert_eq!(menu.nth(5).unwrap().id().as_str(), "lock-screen");
    assert_eq!(menu.size(), 6);
    assert_eq!(menu.title().as_str(), "Power menu");
}

#[test]
fn the_default_menu_asks_confirmation_for_destructive_actions() {
    let menu = default_menu(SessionManager::Systemd);
    assert!(menu.item("shutdown").unwrap().requires_confirmation());
    assert!(menu.item("reboot").unwrap().requires_confirmation());
    assert!(menu.item("suspend").unwrap().requires_confirmation());
    assert!(!menu.item("hibernate").unwrap().requires_confirmation());
    assert!(!menu.item("logout").unwrap().requires_confirmation());
    assert!(!menu.item("lock-screen").unwrap().requires_confirmation());
}

#[test]
fn the_default_commands_follow_the_session_manager() {
    let menu = default_menu(SessionManager::Systemd);
    assert_eq!(menu.item("shutdown").unwrap().cmd(), "systemctl poweroff");
    assert_eq!(menu.item("reboot").unwrap().cmd(), "systemctl reboot");
    assert_eq!(menu.item("logout").unwrap().cmd(), "loginctl terminate-session");
    assert_eq!(menu.item("lock-screen").unwrap().cmd(), "loginctl lock-session");
    let elogind = default_menu(SessionManager::Elogind);
    assert_eq!(elogind.item("suspend").unwrap().cmd(), "elogind suspend");
    assert_eq!(elogind.item("hibernate").unwrap().cmd(), "elogind hibernate");
}

#[test]
fn the_default_wofi_uses_the_markup_arguments() {
    let wofi = default_wofi();
    assert_eq!(wofi.path(), "wofi");
    assert_eq!(wofi.args(), "--allow-markup --columns=1 --hide-scroll");
    assert!(!wofi.is_dry_run());
}

#[test]
fn session_manager_names_are_lower_case() {
    assert_eq!(SessionManager::Systemd.name(), "systemd");
    assert_eq!(SessionManager::Elogind.name(), "elogind");
}

#[test]
fn merging_no_config_keeps_the_defaults() {
    let mut menu = default_menu(SessionManager::Systemd);
    let mut wofi = default_wofi();
    merge_config(&mut menu, &mut wofi, None).unwrap();
    assert_eq!(menu.size(), 6);
    assert_eq!(wofi.path(), "wofi");
}

#[test]
fn merging_a_config_reaches_both_halves() {
    let mut menu = default_menu(SessionManager::Systemd);
    let mut wofi = default_wofi();
    let config = Config {
        wofi: Some(WofiConfig {
            path: Some("/opt/wofi".to_string()),
            extra_args: None,
        }),
        menu: Some(vec![ItemConfig {
            id: "shutdown".to_string(),
            fields: vec![KeyValue::new("title", "Power off")],
        }]),
    };
    merge_config(&mut menu, &mut wofi, Some(config)).unwrap();
    assert_eq!(wofi.path(), "/opt/wofi");
    assert_eq!(menu.item("shutdown").unwrap().title().as_str(), "Power off");
}

#[test]
fn a_bad_item_table_fails_the_config_merge() {
    let mut menu = default_menu(SessionManager::Systemd);
    let mut wofi = default_wofi();
    let config = Config {
        wofi: None,
        menu: Some(vec![ItemConfig {
            id: "shutdown".to_string(),
            fields: vec![KeyValue::new("colour", "red")],
        }]),
    };
    assert!(merge_config(&mut menu, &mut wofi, Some(config)).is_err());
}

#[test]
fn cli_disable_hides_items_from_selection() {
    let mut menu = default_menu(SessionManager::Systemd);
    let mut wofi = default_wofi();
    let mut cli = plain_args();
    cli.disable = vec!["reboot".to_string(), "suspend".to_string()];
    merge_cli_args(&mut menu, &mut wofi, &cli).unwrap();
    assert_eq!(menu.size(), 4);
    assert_eq!(menu.nth(1).unwrap().id().as_str(), "hibernate");
    assert!(!menu.item("reboot").unwrap().enabled());
}

#[test]
fn cli_confirm_forces_the_confirmation_flag() {
    let mut menu = default_menu(SessionManager::Systemd);
    let mut wofi = default_wofi();
    let mut cli = plain_args();
    cli.confirm = vec!["hibernate".to_string()];
    merge_cli_args(&mut menu, &mut wofi, &cli).unwrap();
    assert!(menu.item("hibernate").unwrap().requires_confirmation());
}

#[test]
fn cli_overrides_the_picker_path_and_dry_run() {
    let mut menu = default_menu(SessionManager::Systemd);
    let mut wofi = default_wofi();
    let mut cli = plain_args();
    cli.wofi_path = Some("/home/user/bin/wofi".to_string());
    cli.dry_run = true;
    merge_cli_args(&mut menu, &mut wofi, &cli).unwrap();
    assert_eq!(wofi.path(), "/home/user/bin/wofi");
    assert!(wofi.is_dry_run());
}

#[test]
fn unknown_cli_ids_are_ignored() {
    let mut menu = default_menu(SessionManager::Systemd);
    let mut wofi = default_wofi();
    let mut cli = plain_args();
    cli.disable = vec!["no-such-item".to_string()];
    cli.confirm = vec!["also-missing".to_string()];
    merge_cli_args(&mut menu, &mut wofi, &cli).unwrap();
    assert_eq!(menu.size(), 6);
}

#[test]
fn a_disabled_item_stays_unselectable_even_when_confirmed() {
    let mut menu = default_menu(SessionManager::Systemd);
    let mut wofi = default_wofi();
    let mut cli = plain_args();
    cli.disable = vec!["hibernate".to_string()];
    cli.confirm = vec!["hibernate".to_string()];
    merge_cli_args(&mut menu, &mut wofi, &cli).unwrap();
    assert!(!menu.item("hibernate").unwrap().enabled());
    assert_eq!(menu.size(), 5);
}
