use wofi_power_menu::error::PickerError;
use wofi_power_menu::menu::{Item, Menu};
use wofi_power_menu::power_menu::{default_menu, default_wofi, SessionManager};
use wofi_power_menu::wofi::{interpret_picker_output, Wofi};

#[test]
fn cancelled_picker_yields_an_empty_selection() {
    let r = interpret_picker_output(Some(1), "").unwrap();
    assert_eq!(r, "");
}

#[test]
fn cancelled_picker_discards_any_output() {
    let r = interpret_picker_output(Some(1), "3\n").unwrap();
    assert_eq!(r, "");
}

#[test]
fn successful_picker_strips_the_trailing_newline() {
    let r = interpret_picker_output(Some(0), "2\n").unwrap();
    assert_eq!(r, "2");
}

#[test]
fn successful_picker_keeps_output_without_a_newline() {
    let r = interpret_picker_output(Some(0), "2").unwrap();
    assert_eq!(r, "2");
}

#[test]
fn abnormal_exit_carries_the_code() {
    match interpret_picker_output(Some(2), "") {
        Err(PickerError::AbnormalExit { code }) => assert_eq!(code, 2),
        other => panic!("expected AbnormalExit, got {:?}", other),
    }
}

#[test]
fn a_signal_death_is_an_error() {
    assert!(matches!(
        interpret_picker_output(None, ""),
        Err(PickerError::NoExitCode)
    ));
}

#[test]
fn spawn_args_wrap_the_menu_and_keep_the_mandatory_flags_last() {
    let menu = default_menu(SessionManager::Systemd);
    let wofi = default_wofi();
    let args = wofi.spawn_args(&menu);
    assert_eq!(
        args,
        vec![
            "--prompt",
            "Power menu",
            "--lines=7",
            "--allow-markup",
            "--columns=1",
            "--hide-scroll",
            "-Ddmenu-print_line_num=true",
            "--dmenu",
        ]
    );
}

#[test]
fn spawn_args_count_enabled_items_only() {
    let mut b = Item::new("b", "Bravo", 'B', "echo b", false);
    b.disable();
    let menu = Menu::new("Pick", vec![Item::new("a", "Alpha", 'A', "echo a", false), b]);
    let wofi = Wofi::new("wofi", "");
    let args = wofi.spawn_args(&menu);
    assert_eq!(
        args,
        vec!["--prompt", "Pick", "--lines=2", "-Ddmenu-print_line_num=true", "--dmenu"]
    );
}

#[test]
fn configured_arguments_stand_before_the_mandatory_ones() {
    let menu = Menu::new("Pick", vec![Item::new("a", "Alpha", 'A', "echo a", false)]);
    let wofi = Wofi::new("wofi", "--lines=40");
    let args = wofi.spawn_args(&menu);
    assert_eq!(
        args,
        vec!["--prompt", "Pick", "--lines=2", "--lines=40", "-Ddmenu-print_line_num=true", "--dmenu"]
    );
}
