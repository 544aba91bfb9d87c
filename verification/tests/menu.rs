use bill_manager::menu::MainMenu;

#[test]
fn selections_map_to_the_four_actions() {
    assert_eq!(MainMenu::from_str("1"), Some(MainMenu::AddBill));
    assert_eq!(MainMenu::from_str("2"), Some(MainMenu::ViewBill));
    assert_eq!(MainMenu::from_str("3"), Some(MainMenu::RemoveBill));
    assert_eq!(MainMenu::from_str("4"), Some(MainMenu::EditBill));
}

#[test]
fn other_text_picks_no_action() {
    assert_eq!(MainMenu::from_str("9"), None);
    assert_eq!(MainMenu::from_str(""), None);
    assert_eq!(MainMenu::from_str("10"), None);
    assert_eq!(MainMenu::from_str("add"), None);
}

#[test]
fn menu_text_is_verbatim() {
    let lines = MainMenu::show();
    let expected = vec![
        "",
        "-----Bill Manager-----",
        "1. Add Bill",
        "2. View Bill",
        "3. Delete Bill",
        "4. Edit Bill",
        "",
        "Enter the selection: ",
    ];
    assert_eq!(lines, expected);
}
