use wofi_power_menu::menu::{Item, Menu};

fn sample_items() -> Vec<Item> {
    let mut b = Item::new("b", "Bravo", 'B', "echo b", false);
    b.disable();
    vec![
        Item::new("a", "Alpha", 'A', "echo a", false),
        b,
        Item::new("c", "Charlie", 'C', "echo c", true),
    ]
}

#[test]
fn size_counts_enabled_items_only() {
    let menu = Menu::new("Test", sample_items());
    assert_eq!(menu.size(), 2);
}

#[test]
fn size_of_empty_menu_is_zero() {
    let menu = Menu::new("Test", Vec::new());
    assert_eq!(menu.size(), 0);
}

#[test]
fn nth_skips_disabled_items() {
    let menu = Menu::new("Test", sample_items());
    assert_eq!(menu.nth(0).unwrap().id().as_str(), "a");
    assert_eq!(menu.nth(1).unwrap().id().as_str(), "c");
    assert!(menu.nth(2).is_none());
}

#[test]
fn item_lookup_ignores_enabled_state() {
    let menu = Menu::new("Test", sample_items());
    assert_eq!(menu.item("b").unwrap().title().as_str(), "Bravo");
    assert!(!menu.item("b").unwrap().enabled());
    assert!(menu.item("missing").is_none());
}

#[test]
fn item_mut_hands_back_a_mutable_item() {
    let mut menu = Menu::new("Test", sample_items());
    menu.item_mut("a").unwrap().set_confirmation(true);
    assert!(menu.item("a").unwrap().requires_confirmation());
    assert!(menu.item_mut("missing").is_none());
}

#[test]
fn add_item_appends_after_existing_items() {
    let mut menu = Menu::new("Test", sample_items());
    menu.add_item(Item::new("d", "Delta", 'D', "echo d", false));
    assert_eq!(menu.size(), 3);
    assert_eq!(menu.nth(2).unwrap().id().as_str(), "d");
}

#[test]
fn new_confirmation_has_two_unconfirmed_items() {
    let item = Item::new("shutdown", "Shut down", 'S', "systemctl poweroff", true);
    let conf = Menu::new_confirmation(&item);
    assert_eq!(conf.size(), 2);
    let yes = conf.nth(0).unwrap();
    let no = conf.nth(1).unwrap();
    assert!(!yes.requires_confirmation());
    assert!(!no.requires_confirmation());
    assert_eq!(yes.cmd(), "systemctl poweroff");
    assert_eq!(no.cmd(), "");
    assert_eq!(yes.title().as_str(), "Yes, Shut down");
    assert_eq!(no.title().as_str(), "No, cancel");
    assert_eq!(conf.title().as_str(), "Are you sure?");
    assert_eq!(yes.icon(), 'S');
    assert_eq!(no.icon(), '\u{f0156}');
}

#[test]
fn new_confirmation_leaves_the_item_untouched() {
    let item = Item::new("shutdown", "Shut down", 'S', "systemctl poweroff", true);
    let _ = Menu::new_confirmation(&item);
    assert_eq!(item.title().as_str(), "Shut down");
    assert_eq!(item.cmd(), "systemctl poweroff");
    assert!(item.requires_confirmation());
}

#[test]
fn item_render_uses_spans_and_bidi_guards() {
    let item = Item::new("x", "Title", 'X', "true", false);
    let expected =
        "\u{200e}<span font_size=\"large\">X</span>  \u{2068}<span font_size=\"large\">Title</span>\u{2069}";
    assert_eq!(item.render(), expected);
}

#[test]
fn menu_render_joins_enabled_lines_with_newlines() {
    let menu = Menu::new("Test", sample_items());
    let rendered = menu.render();
    let lines: Vec<&str> = rendered.split('\n').collect();
    assert_eq!(lines.len(), 2);
    assert!(lines[0].contains("Alpha"));
    assert!(lines[1].contains("Charlie"));
    assert!(!rendered.contains("Bravo"));
}

#[test]
fn menu_render_is_idempotent() {
    let menu = Menu::new("Test", sample_items());
    assert_eq!(menu.render(), menu.render());
}

#[test]
fn empty_menu_renders_to_an_empty_string() {
    let menu = Menu::new("Test", Vec::new());
    assert_eq!(menu.render(), "");
}

#[test]
fn iterator_walks_enabled_items_in_order() {
    let menu = Menu::new("Test", sample_items());
    let mut it = menu.iter();
    assert_eq!(it.next().unwrap().id().as_str(), "a");
    assert_eq!(it.next().unwrap().id().as_str(), "c");
    assert!(it.next().is_none());
    assert!(it.next().is_none());
}

#[test]
fn describe_lists_flags_and_title() {
    let menu = Menu::new("Test", sample_items());
    let lines = menu.describe_items();
    assert_eq!(lines.len(), 3);
    assert_eq!(lines[0], "a: Alpha [disabled: false, confirmation: false]");
    assert_eq!(lines[1], "b: Bravo [disabled: true, confirmation: false]");
    assert_eq!(lines[2], "c: Charlie [disabled: false, confirmation: true]");
}

#[test]
fn lookup_with_duplicate_ids_finds_the_first() {
    let menu = Menu::new(
        "Test",
        vec![
            Item::new("a", "First", 'A', "echo 1", false),
            Item::new("a", "Second", 'A', "echo 2", false),
        ],
    );
    assert_eq!(menu.item("a").unwrap().title().as_str(), "First");
}
